//! The evaluation of contexts: each statement binds a name to a lambda, and a
//! context evaluates to the value of a signature or a function.
//!
//! Contexts nest: a definition is evaluated in a frame of its own, above the
//! frames of the contexts that enclose it. A name is looked up from the
//! innermost frame outwards. Where a lambda comes from an enclosing frame,
//! what it depends on becomes a dependency of the frame just inside the one
//! that holds it.
//!
//! Every assignment and every conjuration gets a fresh identifier; the
//! identifiers are read, in order, from a sequence given to the evaluation.
use vstd::prelude::*;
use rand::RngCore;
use crate::check::error::{CheckError, CheckResult, InternalError};
use crate::check::items::{
    get, insert, lemma_map_get_insert, map_contains, map_get, map_insert, set_add, set_contains, set_insert, IdMap,
    IdSet, Items,
};
use crate::check::lambda_dependencies::lemma_add_is_union;
use crate::check::names::{lemma_defined_name_found, lemma_names_defined_insert, lemma_names_get_insert, names_defined, name_insert, name_lookup, names_get, names_insert, span_name, NameMap};
use crate::check::resolver::Resolver;
use crate::check::value::{
    spec_span, span_of, ContextResolver, FunctionConjuration, FunctionLambda, FunctionValue, KnownFunctionValue, KnownSignatureValue,
    LambdaDependencies, SignatureConjuration, SignatureId, SignatureLambda, SignatureName, SignatureValue, Span,
    UnknownSignatureValue,
};
use std::rc::Rc;
use crate::source::Source;
use crate::syntax::{
    DefineFunction, DefineSignature, FunctionContext, SignatureContext, ConjureDependencies, ConjureDependency, ConjureFunction, ConjureSignature, Function, FunctionAssignment,
    FunctionAssignmentRhs, FunctionStatement, GiveFunction, GiveFunctionToFunction, GiveFunctionToSignature, GiveSignature,
    GiveSignatureToFunction, GiveSignatureToSignature, List, Signature, SignatureAssignment, SignatureAssignmentRhs,
    SignatureStatement, TakeFunction, TakeFunctionFrom, TakeSignatureFrom,
};
use crate::check::operations::{
    function_from_function, give_function_to_function, give_function_to_signature, give_signature_to_function,
    give_signature_to_signature, signature_from_function, taken_function_value, spec_function_from_function, spec_give_function_to_function, spec_give_function_to_signature,
    spec_give_signature_to_function, spec_give_signature_to_signature, spec_signature_from_function,
    spec_taken_function_value,
};

verus! {

/// The names bound by one context under evaluation, their lambdas, and what
/// the lambdas taken from enclosing contexts depend on.
pub struct Frame {
    pub signature_lambdas: IdMap<SignatureLambda>,
    pub function_lambdas: IdMap<FunctionLambda>,
    pub signature_ids: NameMap,
    pub function_ids: NameMap,
    pub dependencies: LambdaDependencies,
}

impl Frame {
    pub open spec fn empty() -> Frame {
        Frame {
            signature_lambdas: Items::Nil,
            function_lambdas: Items::Nil,
            signature_ids: Items::Nil,
            function_ids: Items::Nil,
            dependencies: LambdaDependencies::empty(),
        }
    }

    pub fn new() -> (f: Frame)
        ensures
            f == Frame::empty(),
    {
        Frame {
            signature_lambdas: Items::Nil,
            function_lambdas: Items::Nil,
            signature_ids: Items::Nil,
            function_ids: Items::Nil,
            dependencies: LambdaDependencies::new(),
        }
    }

    pub fn copy(&self) -> (f: Frame)
        ensures
            f == *self,
    {
        Frame {
            signature_lambdas: self.signature_lambdas.copy(),
            function_lambdas: self.function_lambdas.copy(),
            signature_ids: self.signature_ids.copy(),
            function_ids: self.function_ids.copy(),
            dependencies: self.dependencies.copy(),
        }
    }
}

/// A lambda bound by an assignment in a context marked `TRACE`, with the
/// name it was bound to.
pub enum TraceEntry {
    Signature(SignatureName, SignatureLambda),
    Function(Span, FunctionLambda),
}

/// The state of an evaluation: the frames, innermost last; every signature
/// and function met so far; the trace; and how many identifiers were used.
pub struct Evaluation {
    pub frames: Seq<Frame>,
    pub resolver: Resolver,
    pub trace: Seq<TraceEntry>,
    pub next_id: int,
}

/// The state of an evaluation.
pub struct EvaluationState {
    pub frames: Vec<Frame>,
    pub resolver: Resolver,
    pub trace: Vec<TraceEntry>,
    pub next_id: usize,
}

impl EvaluationState {
    pub open spec fn model(&self) -> Evaluation {
        Evaluation {
            frames: self.frames@,
            resolver: self.resolver,
            trace: self.trace@,
            next_id: self.next_id as int,
        }
    }

    /// A state with one empty frame, nothing resolved and no identifier used.
    pub fn new() -> (s: EvaluationState)
        ensures
            s.model() == initial_evaluation(),
    {
        let mut frames: Vec<Frame> = Vec::new();
        frames.push(Frame::new());
        let s = EvaluationState { frames, resolver: Resolver::new(), trace: Vec::new(), next_id: 0 };
        assert(s.frames@ =~= seq![Frame::empty()]);
        assert(s.trace@ =~= Seq::<TraceEntry>::empty());
        s
    }
}

pub open spec fn initial_evaluation() -> Evaluation {
    Evaluation { frames: seq![Frame::empty()], resolver: Resolver::empty(), trace: Seq::empty(), next_id: 0 }
}

pub open spec fn sig_name(s: Signature) -> SignatureName {
    SignatureName { with_parens: spec_span(s.with_parens), symbol: spec_span(s.symbol) }
}

pub open spec fn fn_name(f: Function) -> Span {
    spec_span(f.symbol)
}

/// The name of a signature, by the places of its text.
pub fn signature_name(s: &Signature) -> (n: SignatureName)
    ensures
        n == sig_name(*s),
{
    SignatureName { with_parens: span_of(&s.with_parens), symbol: span_of(&s.symbol) }
}

/// The identifier bound to `name` in the innermost of `frames` that binds it.
pub open spec fn lookup_signature(source: &Source, frames: Seq<Frame>, name: Seq<char>) -> Option<u64>
    decreases frames.len(),
{
    if frames.len() == 0 {
        None
    } else {
        match names_get(source, frames.last().signature_ids, name) {
            Some(id) => Some(id),
            None => lookup_signature(source, frames.drop_last(), name),
        }
    }
}

pub open spec fn lookup_function(source: &Source, frames: Seq<Frame>, name: Seq<char>) -> Option<u64>
    decreases frames.len(),
{
    if frames.len() == 0 {
        None
    } else {
        match names_get(source, frames.last().function_ids, name) {
            Some(id) => Some(id),
            None => lookup_function(source, frames.drop_last(), name),
        }
    }
}

/// Law: a name resolves to the identifier that the innermost frame binding
/// it gives it, and to nothing where no frame binds it.
pub proof fn lemma_lookup_signature_is_innermost(source: &Source, frames: Seq<Frame>, name: Seq<char>)
    ensures
        match lookup_signature(source, frames, name) {
            Some(id) => exists|i: int|
                0 <= i < frames.len() && #[trigger] names_get(source, frames[i].signature_ids, name) == Some(id) && forall|j: int|
                    i < j < frames.len() ==> (#[trigger] names_get(source, frames[j].signature_ids, name)) is None,
            None => forall|i: int| 0 <= i < frames.len() ==> (#[trigger] names_get(source, frames[i].signature_ids, name)) is None,
        },
    decreases frames.len(),
{
    if frames.len() > 0 {
        let rest = frames.drop_last();
        let last = frames.len() - 1;
        lemma_lookup_signature_is_innermost(source, rest, name);
        assert forall|i: int| 0 <= i < rest.len() implies rest[i] == frames[i] by {}
        match names_get(source, frames[last].signature_ids, name) {
            Some(id) => {
                assert(names_get(source, frames[last].signature_ids, name) == Some(id));
            },
            None => {
                if let Some(id) = lookup_signature(source, rest, name) {
                    let i = choose|i: int|
                        0 <= i < rest.len() && #[trigger] names_get(source, rest[i].signature_ids, name) == Some(id) && forall|j: int|
                            i < j < rest.len() ==> (#[trigger] names_get(source, rest[j].signature_ids, name)) is None;
                    assert(names_get(source, frames[i].signature_ids, name) == Some(id));
                    assert forall|j: int| i < j < frames.len() implies (#[trigger] names_get(source, frames[j].signature_ids, name)) is None by {
                        if j < last {
                            assert(names_get(source, rest[j].signature_ids, name) is None);
                        }
                    }
                } else {
                    assert forall|i: int| 0 <= i < frames.len() implies (#[trigger] names_get(source, frames[i].signature_ids, name)) is None by {
                        if i < last {
                            assert(names_get(source, rest[i].signature_ids, name) is None);
                        }
                    }
                }
            },
        }
    }
}

/// Law: a name resolves to the identifier that the innermost frame binding
/// it gives it, and to nothing where no frame binds it.
pub proof fn lemma_lookup_function_is_innermost(source: &Source, frames: Seq<Frame>, name: Seq<char>)
    ensures
        match lookup_function(source, frames, name) {
            Some(id) => exists|i: int|
                0 <= i < frames.len() && #[trigger] names_get(source, frames[i].function_ids, name) == Some(id) && forall|j: int|
                    i < j < frames.len() ==> (#[trigger] names_get(source, frames[j].function_ids, name)) is None,
            None => forall|i: int| 0 <= i < frames.len() ==> (#[trigger] names_get(source, frames[i].function_ids, name)) is None,
        },
    decreases frames.len(),
{
    if frames.len() > 0 {
        let rest = frames.drop_last();
        let last = frames.len() - 1;
        lemma_lookup_function_is_innermost(source, rest, name);
        assert forall|i: int| 0 <= i < rest.len() implies rest[i] == frames[i] by {}
        match names_get(source, frames[last].function_ids, name) {
            Some(id) => {
                assert(names_get(source, frames[last].function_ids, name) == Some(id));
            },
            None => {
                if let Some(id) = lookup_function(source, rest, name) {
                    let i = choose|i: int|
                        0 <= i < rest.len() && #[trigger] names_get(source, rest[i].function_ids, name) == Some(id) && forall|j: int|
                            i < j < rest.len() ==> (#[trigger] names_get(source, rest[j].function_ids, name)) is None;
                    assert(names_get(source, frames[i].function_ids, name) == Some(id));
                    assert forall|j: int| i < j < frames.len() implies (#[trigger] names_get(source, frames[j].function_ids, name)) is None by {
                        if j < last {
                            assert(names_get(source, rest[j].function_ids, name) is None);
                        }
                    }
                } else {
                    assert forall|i: int| 0 <= i < frames.len() implies (#[trigger] names_get(source, frames[i].function_ids, name)) is None by {
                        if i < last {
                            assert(names_get(source, rest[i].function_ids, name) is None);
                        }
                    }
                }
            },
        }
    }
}

pub open spec fn spec_resolve_signature(source: &Source, frames: Seq<Frame>, s: Signature) -> CheckResult<u64> {
    match lookup_signature(source, frames, span_name(source, spec_span(s.symbol))) {
        Some(id) => Ok(id),
        None => Err(CheckError::CannotResolveSignature { signature: sig_name(s) }),
    }
}

pub open spec fn spec_resolve_function(source: &Source, frames: Seq<Frame>, f: Function) -> CheckResult<u64> {
    match lookup_function(source, frames, span_name(source, spec_span(f.symbol))) {
        Some(id) => Ok(id),
        None => Err(CheckError::CannotResolveFunction { function: fn_name(f) }),
    }
}

/// The innermost frame at or below `i` that holds a lambda for `id`, with it.
pub open spec fn find_signature_lambda(frames: Seq<Frame>, id: u64, i: int) -> Option<(int, SignatureLambda)>
    decreases i + 1,
{
    if i < 0 {
        None
    } else {
        match map_get(frames[i].signature_lambdas, id) {
            Some(lambda) => Some((i, lambda)),
            None => find_signature_lambda(frames, id, i - 1),
        }
    }
}

pub open spec fn find_function_lambda(frames: Seq<Frame>, id: u64, i: int) -> Option<(int, FunctionLambda)>
    decreases i + 1,
{
    if i < 0 {
        None
    } else {
        match map_get(frames[i].function_lambdas, id) {
            Some(lambda) => Some((i, lambda)),
            None => find_function_lambda(frames, id, i - 1),
        }
    }
}

/// `frames` with the dependencies of frame `i` extended by `dependencies`.
pub open spec fn add_dependencies(frames: Seq<Frame>, i: int, dependencies: LambdaDependencies) -> CheckResult<Seq<Frame>> {
    match frames[i].dependencies.spec_add(dependencies) {
        Ok(d) => Ok(frames.update(i, Frame { dependencies: d, ..frames[i] })),
        Err(e) => Err(e),
    }
}

/// The lambda of signature `id`. One of the innermost frame comes whole; one
/// of an enclosing frame comes without dependencies, which are added to the
/// frame just inside the one that holds it.
pub open spec fn spec_signature_lambda(frames: Seq<Frame>, id: u64) -> CheckResult<(SignatureLambda, Seq<Frame>)> {
    match map_get(frames.last().signature_lambdas, id) {
        Some(lambda) => Ok((lambda, frames)),
        None => match find_signature_lambda(frames, id, frames.len() - 2) {
            Some((i, lambda)) => match add_dependencies(frames, i + 1, lambda.dependencies) {
                Ok(frames) => Ok(
                    (SignatureLambda { signature: lambda.signature, dependencies: LambdaDependencies::empty() }, frames),
                ),
                Err(e) => Err(e),
            },
            None => Err(CheckError::Internal { error: InternalError::MissingLambda }),
        },
    }
}

pub open spec fn spec_function_lambda(frames: Seq<Frame>, id: u64) -> CheckResult<(FunctionLambda, Seq<Frame>)> {
    match map_get(frames.last().function_lambdas, id) {
        Some(lambda) => Ok((lambda, frames)),
        None => match find_function_lambda(frames, id, frames.len() - 2) {
            Some((i, lambda)) => match add_dependencies(frames, i + 1, lambda.dependencies) {
                Ok(frames) => Ok(
                    (FunctionLambda { function: lambda.function, dependencies: LambdaDependencies::empty() }, frames),
                ),
                Err(e) => Err(e),
            },
            None => Err(CheckError::Internal { error: InternalError::MissingLambda }),
        },
    }
}

/// Every name a frame binds has a lambda in that frame.
pub open spec fn frame_wf(f: Frame) -> bool {
    names_defined(f.signature_ids, f.signature_lambdas) && names_defined(f.function_ids, f.function_lambdas)
}

/// Some frame holds a lambda for the signature `id`.
pub open spec fn holds_signature(frames: Seq<Frame>, id: u64) -> bool {
    exists|i: int| 0 <= i < frames.len() && #[trigger] map_contains(frames[i].signature_lambdas, id)
}

/// Some frame holds a lambda for the function `id`.
pub open spec fn holds_function(frames: Seq<Frame>, id: u64) -> bool {
    exists|i: int| 0 <= i < frames.len() && #[trigger] map_contains(frames[i].function_lambdas, id)
}

proof fn lemma_resolved_signature_is_held(source: &Source, frames: Seq<Frame>, name: Seq<char>)
    requires
        forall|i: int| 0 <= i < frames.len() ==> #[trigger] frame_wf(frames[i]),
    ensures
        lookup_signature(source, frames, name) matches Some(id) ==> holds_signature(frames, id),
    decreases frames.len(),
{
    if frames.len() > 0 {
        let last = frames.len() - 1;
        assert(frame_wf(frames[last]));
        lemma_defined_name_found(source, frames[last].signature_ids, frames[last].signature_lambdas, name);
        let rest = frames.drop_last();
        assert forall|i: int| 0 <= i < rest.len() implies #[trigger] frame_wf(rest[i]) by {
            assert(frame_wf(frames[i]));
        }
        lemma_resolved_signature_is_held(source, rest, name);
        if let Some(id) = lookup_signature(source, frames, name) {
            if names_get(source, frames.last().signature_ids, name) is None {
                let i = choose|i: int| 0 <= i < rest.len() && #[trigger] map_contains(rest[i].signature_lambdas, id);
                assert(map_contains(frames[i].signature_lambdas, id));
            } else {
                assert(map_contains(frames[last].signature_lambdas, id));
            }
        }
    }
}

proof fn lemma_resolved_function_is_held(source: &Source, frames: Seq<Frame>, name: Seq<char>)
    requires
        forall|i: int| 0 <= i < frames.len() ==> #[trigger] frame_wf(frames[i]),
    ensures
        lookup_function(source, frames, name) matches Some(id) ==> holds_function(frames, id),
    decreases frames.len(),
{
    if frames.len() > 0 {
        let last = frames.len() - 1;
        assert(frame_wf(frames[last]));
        lemma_defined_name_found(source, frames[last].function_ids, frames[last].function_lambdas, name);
        let rest = frames.drop_last();
        assert forall|i: int| 0 <= i < rest.len() implies #[trigger] frame_wf(rest[i]) by {
            assert(frame_wf(frames[i]));
        }
        lemma_resolved_function_is_held(source, rest, name);
        if let Some(id) = lookup_function(source, frames, name) {
            if names_get(source, frames.last().function_ids, name) is None {
                let i = choose|i: int| 0 <= i < rest.len() && #[trigger] map_contains(rest[i].function_lambdas, id);
                assert(map_contains(frames[i].function_lambdas, id));
            } else {
                assert(map_contains(frames[last].function_lambdas, id));
            }
        }
    }
}

proof fn lemma_find_signature_lambda_finds(frames: Seq<Frame>, id: u64, j: int, i: int)
    requires
        0 <= i <= j < frames.len(),
        map_contains(frames[i].signature_lambdas, id),
    ensures
        find_signature_lambda(frames, id, j) is Some,
    decreases j + 1,
{
    if map_get(frames[j].signature_lambdas, id) is None {
        lemma_find_signature_lambda_finds(frames, id, j - 1, i);
    }
}

proof fn lemma_find_function_lambda_finds(frames: Seq<Frame>, id: u64, j: int, i: int)
    requires
        0 <= i <= j < frames.len(),
        map_contains(frames[i].function_lambdas, id),
    ensures
        find_function_lambda(frames, id, j) is Some,
    decreases j + 1,
{
    if map_get(frames[j].function_lambdas, id) is None {
        lemma_find_function_lambda_finds(frames, id, j - 1, i);
    }
}

impl EvaluationState {
    /// There is a frame, and in each frame every bound name has a lambda.
    pub open spec fn wf(&self) -> bool {
        &&& self.frames@.len() >= 1
        &&& forall|i: int| 0 <= i < self.frames@.len() ==> #[trigger] frame_wf(self.frames@[i])
    }

    /// The next unused identifier of `ids`.
    pub fn fresh_id(&mut self, ids: &Vec<u64>) -> (id: u64)
        requires
            old(self).next_id < ids@.len(),
        ensures
            id == ids@[old(self).next_id as int],
            final(self).model() == (Evaluation { next_id: old(self).next_id + 1, ..old(self).model() }),
    {
        let n = ids.len();
        let id = ids[self.next_id];
        assert(self.next_id < n);
        self.next_id = self.next_id + 1;
        id
    }

    pub fn resolve_signature(&self, source: &Source, s: &Signature) -> (r: CheckResult<u64>)
        ensures
            r == spec_resolve_signature(source, self.frames@, *s),
    {
        let mut i: usize = self.frames.len();
        assert(self.frames@.subrange(0, i as int) =~= self.frames@);
        while i > 0
            invariant
                i <= self.frames@.len(),
                lookup_signature(source, self.frames@, span_name(source, spec_span(s.symbol)))
                    == lookup_signature(source, self.frames@.subrange(0, i as int), span_name(source, spec_span(s.symbol))),
            decreases i,
        {
            let ghost prefix = self.frames@.subrange(0, i as int);
            assert(prefix.drop_last() =~= self.frames@.subrange(0, i - 1));
            if let Some(id) = name_lookup(source, &self.frames[i - 1].signature_ids, span_of(&s.symbol)) {
                return Ok(id);
            }
            i = i - 1;
        }
        Err(CheckError::CannotResolveSignature { signature: signature_name(s) })
    }

    pub fn resolve_function(&self, source: &Source, f: &Function) -> (r: CheckResult<u64>)
        ensures
            r == spec_resolve_function(source, self.frames@, *f),
    {
        let mut i: usize = self.frames.len();
        assert(self.frames@.subrange(0, i as int) =~= self.frames@);
        while i > 0
            invariant
                i <= self.frames@.len(),
                lookup_function(source, self.frames@, span_name(source, spec_span(f.symbol)))
                    == lookup_function(source, self.frames@.subrange(0, i as int), span_name(source, spec_span(f.symbol))),
            decreases i,
        {
            let ghost prefix = self.frames@.subrange(0, i as int);
            assert(prefix.drop_last() =~= self.frames@.subrange(0, i - 1));
            if let Some(id) = name_lookup(source, &self.frames[i - 1].function_ids, span_of(&f.symbol)) {
                return Ok(id);
            }
            i = i - 1;
        }
        Err(CheckError::CannotResolveFunction { function: span_of(&f.symbol) })
    }
}

impl EvaluationState {
    /// Extends the dependencies of frame `i` by `dependencies`.
    fn add_frame_dependencies(&mut self, i: usize, dependencies: &LambdaDependencies) -> (r: CheckResult<()>)
        requires
            old(self).wf(),
            i < old(self).frames@.len(),
        ensures
            final(self).wf(),
            final(self).frames@.len() == old(self).frames@.len(),
            final(self).next_id == old(self).next_id,
            match add_dependencies(old(self).frames@, i as int, *dependencies) {
                Ok(frames) => r is Ok && final(self).model() == (Evaluation { frames, ..old(self).model() }),
                Err(e) => r == Err::<(), CheckError>(e) && final(self).model() == old(self).model(),
            },
    {
        let d = self.frames[i].dependencies.checked_add(dependencies)?;
        let f = &self.frames[i];
        let frame = Frame {
            signature_lambdas: f.signature_lambdas.copy(),
            function_lambdas: f.function_lambdas.copy(),
            signature_ids: f.signature_ids.copy(),
            function_ids: f.function_ids.copy(),
            dependencies: d,
        };
        self.frames.set(i, frame);
        assert forall|j: int| 0 <= j < self.frames@.len() implies #[trigger] frame_wf(self.frames@[j]) by {
            assert(frame_wf(old(self).frames@[j]));
        }
        Ok(())
    }

    /// The lambda of signature `id`, from the innermost frame that holds one.
    pub fn signature_lambda(&mut self, id: u64) -> (r: CheckResult<SignatureLambda>)
        requires
            old(self).wf(),
            holds_signature(old(self).frames@, id),
        ensures
            r is Err ==> r == Err::<SignatureLambda, CheckError>(
                CheckError::Internal { error: InternalError::ConflictingDependencySignature },
            ),
            final(self).wf(),
            final(self).frames@.len() == old(self).frames@.len(),
            final(self).next_id == old(self).next_id,
            match spec_signature_lambda(old(self).frames@, id) {
                Ok((lambda, frames)) => r == Ok::<SignatureLambda, CheckError>(lambda)
                    && final(self).model() == (Evaluation { frames, ..old(self).model() }),
                Err(e) => r == Err::<SignatureLambda, CheckError>(e) && final(self).model() == old(self).model(),
            },
    {
        let last = self.frames.len() - 1;
        assert(self.frames@.last() == self.frames@[last as int]);
        if let Some(lambda) = get(&self.frames[last].signature_lambdas, id) {
            return Ok(lambda.copy());
        }
        let ghost frames = self.frames@;
        let mut i: usize = last;
        while i > 0
            invariant
                i <= last,
                last == frames.len() - 1,
                self.frames@ == frames,
                self.wf(),
                self.model() == old(self).model(),
                map_get(frames.last().signature_lambdas, id) is None,
                find_signature_lambda(frames, id, last - 1) == find_signature_lambda(frames, id, i - 1),
            decreases i,
        {
            if let Some(lambda) = get(&self.frames[i - 1].signature_lambdas, id) {
                assert(find_signature_lambda(frames, id, i - 1) == Some(((i - 1) as int, *lambda)));
                let signature = lambda.signature.copy();
                let dependencies = lambda.dependencies.copy();
                self.add_frame_dependencies(i, &dependencies)?;
                return Ok(SignatureLambda { signature, dependencies: LambdaDependencies::new() });
            }
            i = i - 1;
        }
        proof {
            let k = choose|k: int| 0 <= k < frames.len() && #[trigger] map_contains(frames[k].signature_lambdas, id);
            if k == last {
                assert(map_get(frames[k].signature_lambdas, id) is Some);
            } else {
                lemma_find_signature_lambda_finds(frames, id, last - 1, k);
            }
        }
        Err(CheckError::Internal { error: InternalError::MissingLambda })
    }

    /// The lambda of function `id`, from the innermost frame that holds one.
    pub fn function_lambda(&mut self, id: u64) -> (r: CheckResult<FunctionLambda>)
        requires
            old(self).wf(),
            holds_function(old(self).frames@, id),
        ensures
            r is Err ==> r == Err::<FunctionLambda, CheckError>(
                CheckError::Internal { error: InternalError::ConflictingDependencySignature },
            ),
            final(self).wf(),
            final(self).frames@.len() == old(self).frames@.len(),
            final(self).next_id == old(self).next_id,
            match spec_function_lambda(old(self).frames@, id) {
                Ok((lambda, frames)) => r == Ok::<FunctionLambda, CheckError>(lambda)
                    && final(self).model() == (Evaluation { frames, ..old(self).model() }),
                Err(e) => r == Err::<FunctionLambda, CheckError>(e) && final(self).model() == old(self).model(),
            },
    {
        let last = self.frames.len() - 1;
        assert(self.frames@.last() == self.frames@[last as int]);
        if let Some(lambda) = get(&self.frames[last].function_lambdas, id) {
            return Ok(lambda.copy());
        }
        let ghost frames = self.frames@;
        let mut i: usize = last;
        while i > 0
            invariant
                i <= last,
                last == frames.len() - 1,
                self.frames@ == frames,
                self.wf(),
                self.model() == old(self).model(),
                map_get(frames.last().function_lambdas, id) is None,
                find_function_lambda(frames, id, last - 1) == find_function_lambda(frames, id, i - 1),
            decreases i,
        {
            if let Some(lambda) = get(&self.frames[i - 1].function_lambdas, id) {
                assert(find_function_lambda(frames, id, i - 1) == Some(((i - 1) as int, *lambda)));
                let function = lambda.function.copy();
                let dependencies = lambda.dependencies.copy();
                self.add_frame_dependencies(i, &dependencies)?;
                return Ok(FunctionLambda { function, dependencies: LambdaDependencies::new() });
            }
            i = i - 1;
        }
        proof {
            let k = choose|k: int| 0 <= k < frames.len() && #[trigger] map_contains(frames[k].function_lambdas, id);
            if k == last {
                assert(map_get(frames[k].function_lambdas, id) is Some);
            } else {
                lemma_find_function_lambda_finds(frames, id, last - 1, k);
            }
        }
        Err(CheckError::Internal { error: InternalError::MissingLambda })
    }
}

/// The signature and function looked up by name, with the identifier it
/// resolves to and its lambda.
pub open spec fn spec_lookup_signature(source: &Source, ev: Evaluation, s: Signature) -> (Evaluation, CheckResult<(u64, SignatureLambda)>) {
    match spec_resolve_signature(source, ev.frames, s) {
        Err(e) => (ev, Err(e)),
        Ok(id) => match spec_signature_lambda(ev.frames, id) {
            Err(e) => (ev, Err(e)),
            Ok((lambda, frames)) => (Evaluation { frames, ..ev }, Ok((id, lambda))),
        },
    }
}

pub open spec fn spec_lookup_function(source: &Source, ev: Evaluation, f: Function) -> (Evaluation, CheckResult<(u64, FunctionLambda)>) {
    match spec_resolve_function(source, ev.frames, f) {
        Err(e) => (ev, Err(e)),
        Ok(id) => match spec_function_lambda(ev.frames, id) {
            Err(e) => (ev, Err(e)),
            Ok((lambda, frames)) => (Evaluation { frames, ..ev }, Ok((id, lambda))),
        },
    }
}

impl EvaluationState {
    pub fn lookup_signature(&mut self, source: &Source, s: &Signature) -> (r: CheckResult<(u64, SignatureLambda)>)
        requires
            old(self).wf(),
        ensures
            final(self).wf(),
            final(self).frames@.len() == old(self).frames@.len(),
            final(self).next_id == old(self).next_id,
            (final(self).model(), r) == spec_lookup_signature(source, old(self).model(), *s),
    {
        let id = self.resolve_signature(source, s)?;
        proof {
            lemma_resolved_signature_is_held(source, self.frames@, span_name(source, spec_span(s.symbol)));
        }
        let lambda = self.signature_lambda(id)?;
        Ok((id, lambda))
    }

    pub fn lookup_function(&mut self, source: &Source, f: &Function) -> (r: CheckResult<(u64, FunctionLambda)>)
        requires
            old(self).wf(),
        ensures
            final(self).wf(),
            final(self).frames@.len() == old(self).frames@.len(),
            final(self).next_id == old(self).next_id,
            (final(self).model(), r) == spec_lookup_function(source, old(self).model(), *f),
    {
        let id = self.resolve_function(source, f)?;
        proof {
            lemma_resolved_function_is_held(source, self.frames@, span_name(source, spec_span(f.symbol)));
        }
        let lambda = self.function_lambda(id)?;
        Ok((id, lambda))
    }
}

/// What a context takes: the signatures, the functions with their
/// signatures, and the names under which it takes them.
pub struct Takes {
    pub signatures: IdSet,
    pub functions: IdMap<SignatureValue>,
    pub resolver: ContextResolver,
}

/// `takes` with the signature `lhs` taken as `id`.
pub open spec fn spec_register_signature(source: &Source, takes: Takes, id: u64, lhs: Signature, statement: Span) -> CheckResult<Takes> {
    match takes.resolver.spec_insert_taken_signature(source, id, sig_name(lhs), statement) {
        Ok(resolver) => Ok(Takes { signatures: set_insert(takes.signatures, id), resolver, ..takes }),
        Err(e) => Err(e),
    }
}

pub fn register_signature(source: &Source, takes: Takes, id: u64, lhs: &Signature, statement: Span) -> (r: CheckResult<Takes>)
    ensures
        r == spec_register_signature(source, takes, id, *lhs, statement),
{
    let resolver = takes.resolver.insert_taken_signature(source, id, signature_name(lhs), statement)?;
    Ok(Takes { signatures: set_add(&takes.signatures, id), functions: takes.functions, resolver })
}

/// `takes` with the function `lhs` of signature `signature` taken as `id`.
pub open spec fn spec_register_function(
    source: &Source,
    takes: Takes,
    id: u64,
    lhs: Function,
    signature: SignatureValue,
    statement: Span,
) -> CheckResult<Takes> {
    match takes.resolver.spec_insert_taken_function(source, id, fn_name(lhs), statement) {
        Ok(resolver) => Ok(Takes { functions: map_insert(takes.functions, id, signature), resolver, ..takes }),
        Err(e) => Err(e),
    }
}

pub fn register_function(
    source: &Source,
    takes: Takes,
    id: u64,
    lhs: &Function,
    signature: &SignatureValue,
    statement: Span,
) -> (r: CheckResult<Takes>)
    ensures
        r == spec_register_function(source, takes, id, *lhs, *signature, statement),
{
    let resolver = takes.resolver.insert_taken_function(source, id, span_of(&lhs.symbol), statement)?;
    Ok(Takes { signatures: takes.signatures, functions: insert(&takes.functions, id, signature.copy()), resolver })
}

/// The state after `lhs` is bound, as `id`, to `lambda` in the innermost frame.
pub open spec fn spec_bind_signature(
    source: &Source,
    ev: Evaluation,
    trace: bool,
    lhs: Signature,
    id: u64,
    lambda: SignatureLambda,
    statement: Span,
) -> Evaluation {
    let f = ev.frames.last();
    Evaluation {
        frames: ev.frames.update(
            ev.frames.len() - 1,
            Frame {
                signature_ids: names_insert(source, f.signature_ids, spec_span(lhs.symbol), id),
                signature_lambdas: map_insert(f.signature_lambdas, id, lambda),
                ..f
            },
        ),
        resolver: ev.resolver.spec_insert_signature(id, sig_name(lhs), statement),
        trace: if trace {
            ev.trace.push(TraceEntry::Signature(sig_name(lhs), lambda))
        } else {
            ev.trace
        },
        ..ev
    }
}

pub open spec fn spec_bind_function(
    source: &Source,
    ev: Evaluation,
    trace: bool,
    lhs: Function,
    id: u64,
    lambda: FunctionLambda,
    statement: Span,
) -> Evaluation {
    let f = ev.frames.last();
    Evaluation {
        frames: ev.frames.update(
            ev.frames.len() - 1,
            Frame {
                function_ids: names_insert(source, f.function_ids, spec_span(lhs.symbol), id),
                function_lambdas: map_insert(f.function_lambdas, id, lambda),
                ..f
            },
        ),
        resolver: ev.resolver.spec_insert_function(id, fn_name(lhs), statement),
        trace: if trace {
            ev.trace.push(TraceEntry::Function(fn_name(lhs), lambda))
        } else {
            ev.trace
        },
        ..ev
    }
}

impl EvaluationState {
    pub fn bind_signature(&mut self, source: &Source, trace: bool, lhs: &Signature, id: u64, lambda: SignatureLambda, statement: Span)
        requires
            old(self).wf(),
        ensures
            final(self).wf(),
            final(self).frames@.len() == old(self).frames@.len(),
            final(self).next_id == old(self).next_id,
            final(self).model() == spec_bind_signature(source, old(self).model(), trace, *lhs, id, lambda, statement),
    {
        self.resolver.insert_signature(id, signature_name(lhs), statement);
        if trace {
            self.trace.push(TraceEntry::Signature(signature_name(lhs), lambda.copy()));
        }
        let last = self.frames.len() - 1;
        let f = &self.frames[last];
        let frame = Frame {
            signature_ids: name_insert(source, &f.signature_ids, span_of(&lhs.symbol), id),
            signature_lambdas: insert(&f.signature_lambdas, id, lambda),
            function_ids: f.function_ids.copy(),
            function_lambdas: f.function_lambdas.copy(),
            dependencies: f.dependencies.copy(),
        };
        proof {
            let g = old(self).frames@[last as int];
            assert(frame_wf(g));
            lemma_names_defined_insert(source, g.signature_ids, g.signature_lambdas, spec_span(lhs.symbol), id, lambda);
        }
        self.frames.set(last, frame);
        assert forall|j: int| 0 <= j < self.frames@.len() implies #[trigger] frame_wf(self.frames@[j]) by {
            assert(frame_wf(old(self).frames@[j]));
        }
    }

    pub fn bind_function(&mut self, source: &Source, trace: bool, lhs: &Function, id: u64, lambda: FunctionLambda, statement: Span)
        requires
            old(self).wf(),
        ensures
            final(self).wf(),
            final(self).frames@.len() == old(self).frames@.len(),
            final(self).next_id == old(self).next_id,
            final(self).model() == spec_bind_function(source, old(self).model(), trace, *lhs, id, lambda, statement),
    {
        self.resolver.insert_function(id, span_of(&lhs.symbol), statement);
        if trace {
            self.trace.push(TraceEntry::Function(span_of(&lhs.symbol), lambda.copy()));
        }
        let last = self.frames.len() - 1;
        let f = &self.frames[last];
        let frame = Frame {
            function_ids: name_insert(source, &f.function_ids, span_of(&lhs.symbol), id),
            function_lambdas: insert(&f.function_lambdas, id, lambda),
            signature_ids: f.signature_ids.copy(),
            signature_lambdas: f.signature_lambdas.copy(),
            dependencies: f.dependencies.copy(),
        };
        proof {
            let g = old(self).frames@[last as int];
            assert(frame_wf(g));
            lemma_names_defined_insert(source, g.function_ids, g.function_lambdas, spec_span(lhs.symbol), id, lambda);
        }
        self.frames.set(last, frame);
        assert forall|j: int| 0 <= j < self.frames@.len() implies #[trigger] frame_wf(self.frames@[j]) by {
            assert(frame_wf(old(self).frames@[j]));
        }
    }
}

/// How many identifiers the evaluation of each piece of syntax draws: one
/// for each assignment and each conjuration, in it or nested in it.
pub open spec fn signature_assignment_ids(a: SignatureAssignment) -> nat
    decreases a,
{
    1 + match a.rhs {
        SignatureAssignmentRhs::Define(d) => signature_statements_ids(d.context.statements),
        _ => 0,
    }
}

pub open spec fn function_assignment_ids(a: FunctionAssignment) -> nat
    decreases a,
{
    1 + match a.rhs {
        FunctionAssignmentRhs::Define(d) => function_statements_ids(d.context.statements),
        _ => 0,
    }
}

pub open spec fn signature_statement_ids(s: SignatureStatement) -> nat
    decreases s,
{
    match s {
        SignatureStatement::SignatureAssignment(a) => signature_assignment_ids(a),
        SignatureStatement::FunctionAssignment(a) => function_assignment_ids(a),
        SignatureStatement::ConjureSignature(_) => 1,
        SignatureStatement::ConjureFunction(_) => 1,
    }
}

pub open spec fn function_statement_ids(s: FunctionStatement) -> nat
    decreases s,
{
    match s {
        FunctionStatement::SignatureAssignment(a) => signature_assignment_ids(a),
        FunctionStatement::FunctionAssignment(a) => function_assignment_ids(a),
        FunctionStatement::GiveSignature(_) => 0,
        FunctionStatement::GiveFunction(_) => 0,
    }
}

pub open spec fn signature_statements_ids(l: List<SignatureStatement>) -> nat
    decreases l,
{
    match l {
        List::Nil => 0,
        List::Cons(s, rest) => signature_statement_ids(*s) + signature_statements_ids(*rest),
    }
}

pub open spec fn function_statements_ids(l: List<FunctionStatement>) -> nat
    decreases l,
{
    match l {
        List::Nil => 0,
        List::Cons(s, rest) => function_statement_ids(*s) + function_statements_ids(*rest),
    }
}

pub open spec fn spec_take_signature_from(source: &Source, ev: Evaluation, statement: Span, t: TakeSignatureFrom) -> (
    Evaluation,
    CheckResult<SignatureLambda>,
) {
    let (ev, r) = spec_lookup_function(source, ev, t.source);
    match r {
        Err(e) => (ev, Err(e)),
        Ok((_, lambda)) => (ev, spec_signature_from_function(source, statement, t.foreign, t.source, lambda)),
    }
}

pub open spec fn spec_take_function_from(source: &Source, ev: Evaluation, statement: Span, t: TakeFunctionFrom) -> (
    Evaluation,
    CheckResult<FunctionLambda>,
) {
    let (ev, r) = spec_lookup_function(source, ev, t.source);
    match r {
        Err(e) => (ev, Err(e)),
        Ok((_, lambda)) => (ev, spec_function_from_function(source, statement, t.foreign, t.source, lambda)),
    }
}

pub open spec fn spec_signature_to_signature(source: &Source, ev: Evaluation, statement: Span, g: GiveSignatureToSignature) -> (
    Evaluation,
    CheckResult<SignatureLambda>,
) {
    let (ev, r) = spec_lookup_signature(source, ev, g.signature);
    match r {
        Err(e) => (ev, Err(e)),
        Ok((_, given)) => {
            let (ev, r) = spec_lookup_signature(source, ev, g.source);
            match r {
                Err(e) => (ev, Err(e)),
                Ok((_, target)) => (ev, spec_give_signature_to_signature(source, statement, g, given, target)),
            }
        },
    }
}

pub open spec fn spec_function_to_signature(source: &Source, ev: Evaluation, statement: Span, g: GiveFunctionToSignature) -> (
    Evaluation,
    CheckResult<SignatureLambda>,
) {
    let (ev, r) = spec_lookup_function(source, ev, g.function);
    match r {
        Err(e) => (ev, Err(e)),
        Ok((_, given)) => {
            let (ev, r) = spec_lookup_signature(source, ev, g.source);
            match r {
                Err(e) => (ev, Err(e)),
                Ok((_, target)) => (ev, spec_give_function_to_signature(source, statement, g, given, target)),
            }
        },
    }
}

pub open spec fn spec_signature_to_function(source: &Source, ev: Evaluation, statement: Span, g: GiveSignatureToFunction) -> (
    Evaluation,
    CheckResult<FunctionLambda>,
) {
    let (ev, r) = spec_lookup_signature(source, ev, g.signature);
    match r {
        Err(e) => (ev, Err(e)),
        Ok((_, given)) => {
            let (ev, r) = spec_lookup_function(source, ev, g.source);
            match r {
                Err(e) => (ev, Err(e)),
                Ok((_, target)) => (ev, spec_give_signature_to_function(source, statement, g, given, target)),
            }
        },
    }
}

pub open spec fn spec_function_to_function(source: &Source, ev: Evaluation, statement: Span, g: GiveFunctionToFunction) -> (
    Evaluation,
    CheckResult<FunctionLambda>,
) {
    let (ev, r) = spec_lookup_function(source, ev, g.function);
    match r {
        Err(e) => (ev, Err(e)),
        Ok((_, given)) => {
            let (ev, r) = spec_lookup_function(source, ev, g.source);
            match r {
                Err(e) => (ev, Err(e)),
                Ok((_, target)) => (ev, spec_give_function_to_function(source, statement, g, given, target)),
            }
        },
    }
}

/// The lambda of a signature taken as `id`: the taken signature itself,
/// which depends on it.
pub open spec fn spec_taken_signature_lambda(id: u64) -> SignatureLambda {
    SignatureLambda {
        signature: SignatureValue::Unknown(UnknownSignatureValue::Taken(SignatureId(id))),
        dependencies: LambdaDependencies { signatures: Items::Cons(Rc::new(id), Rc::new(Items::Nil)), functions: Items::Nil },
    }
}

pub fn taken_signature_lambda(id: u64) -> (l: SignatureLambda)
    ensures
        l == spec_taken_signature_lambda(id),
{
    SignatureLambda {
        signature: SignatureValue::Unknown(UnknownSignatureValue::Taken(SignatureId(id))),
        dependencies: LambdaDependencies { signatures: Items::Cons(Rc::new(id), Rc::new(Items::Nil)), functions: Items::Nil },
    }
}

/// A function taken as `id`, of the signature `t` names: it is registered
/// in `takes`, and its lambda depends on it and on what its signature
/// depends on.
pub open spec fn spec_take_function(
    source: &Source,
    ev: Evaluation,
    takes: Takes,
    id: u64,
    lhs: Function,
    t: TakeFunction,
    statement: Span,
) -> (Evaluation, CheckResult<(FunctionLambda, Takes)>) {
    let (ev, r) = spec_lookup_signature(source, ev, t.signature);
    match r {
        Err(e) => (ev, Err(e)),
        Ok((_, signature)) => match spec_register_function(source, takes, id, lhs, signature.signature, statement) {
            Err(e) => (ev, Err(e)),
            Ok(takes) => match (LambdaDependencies {
                signatures: Items::Nil,
                functions: Items::Cons(Rc::new((id, signature.signature)), Rc::new(Items::Nil)),
            }).spec_add(signature.dependencies) {
                Err(e) => (ev, Err(e)),
                Ok(dependencies) => (
                    ev,
                    Ok((FunctionLambda { function: spec_taken_function_value(id, signature.signature), dependencies }, takes)),
                ),
            },
        },
    }
}

/// The dependencies `acc`, extended by those of each lambda named in `l`.
pub open spec fn spec_conjure_dependencies(source: &Source, ev: Evaluation, acc: LambdaDependencies, l: ConjureDependencies) -> (
    Evaluation,
    CheckResult<LambdaDependencies>,
)
    decreases l,
{
    match l {
        List::Nil => (ev, Ok(acc)),
        List::Cons(d, rest) => {
            let (ev, r) = match *d {
                ConjureDependency::Signature(s) => {
                    let (ev, r) = spec_lookup_signature(source, ev, s);
                    (
                        ev,
                        match r {
                            Err(e) => Err(e),
                            Ok((_, lambda)) => Ok(lambda.dependencies),
                        },
                    )
                },
                ConjureDependency::Function(f) => {
                    let (ev, r) = spec_lookup_function(source, ev, f);
                    (
                        ev,
                        match r {
                            Err(e) => Err(e),
                            Ok((_, lambda)) => Ok(lambda.dependencies),
                        },
                    )
                },
            };
            match r {
                Err(e) => (ev, Err(e)),
                Ok(dependencies) => match acc.spec_add(dependencies) {
                    Err(e) => (ev, Err(e)),
                    Ok(acc) => spec_conjure_dependencies(source, ev, acc, *rest),
                },
            }
        },
    }
}

/// A signature conjured in a signature definition, as a fresh identifier.
pub open spec fn spec_conjure_signature(source: &Source, ids: Seq<u64>, ev: Evaluation, value: KnownSignatureValue, c: ConjureSignature) -> (
    Evaluation,
    CheckResult<KnownSignatureValue>,
) {
    let id = ids[ev.next_id];
    let ev = Evaluation { next_id: ev.next_id + 1, ..ev };
    let statement = spec_span(c.location);
    match value.resolver.spec_produced_signature_id(source, span_name(source, spec_span(c.signature.symbol))) {
        Some(_) => (ev, Err(CheckError::CannotConjureTwoSignaturesWithIdenticalName { signature: sig_name(c.signature), statement })),
        None => {
            let (ev, r) = spec_conjure_dependencies(source, ev, LambdaDependencies::empty(), c.dependencies);
            match r {
                Err(e) => (ev, Err(e)),
                Ok(dependencies) => (
                    Evaluation { resolver: ev.resolver.spec_insert_signature(id, sig_name(c.signature), statement), ..ev },
                    Ok(
                        KnownSignatureValue {
                            conjured_signatures: map_insert(value.conjured_signatures, id, SignatureConjuration { dependencies }),
                            resolver: value.resolver.spec_insert_produced_signature(source, id, sig_name(c.signature), statement),
                            ..value
                        },
                    ),
                ),
            }
        },
    }
}

/// A function conjured in a signature definition, as a fresh identifier;
/// it depends on what its dependencies and its signature depend on.
pub open spec fn spec_conjure_function(source: &Source, ids: Seq<u64>, ev: Evaluation, value: KnownSignatureValue, c: ConjureFunction) -> (
    Evaluation,
    CheckResult<KnownSignatureValue>,
) {
    let id = ids[ev.next_id];
    let ev = Evaluation { next_id: ev.next_id + 1, ..ev };
    let statement = spec_span(c.location);
    match value.resolver.spec_produced_function_id(source, span_name(source, spec_span(c.function.symbol))) {
        Some(_) => (ev, Err(CheckError::CannotConjureTwoFunctionsWithIdenticalName { function: fn_name(c.function), statement })),
        None => {
            let (ev, r) = spec_conjure_dependencies(source, ev, LambdaDependencies::empty(), c.dependencies);
            match r {
                Err(e) => (ev, Err(e)),
                Ok(dependencies) => {
                    let (ev, r) = spec_lookup_signature(source, ev, c.signature);
                    match r {
                        Err(e) => (ev, Err(e)),
                        Ok((_, signature)) => match dependencies.spec_add(signature.dependencies) {
                            Err(e) => (ev, Err(e)),
                            Ok(dependencies) => (
                                Evaluation { resolver: ev.resolver.spec_insert_function(id, fn_name(c.function), statement), ..ev },
                                Ok(
                                    KnownSignatureValue {
                                        conjured_functions: map_insert(
                                            value.conjured_functions,
                                            id,
                                            FunctionConjuration { signature: signature.signature, dependencies },
                                        ),
                                        resolver: value.resolver.spec_insert_produced_function(
                                            source,
                                            id,
                                            fn_name(c.function),
                                            statement,
                                        ),
                                        ..value
                                    },
                                ),
                            ),
                        },
                    }
                },
            }
        },
    }
}

/// A signature given by a function definition; no two given signatures
/// share a name.
pub open spec fn spec_give_signature(source: &Source, ev: Evaluation, value: KnownFunctionValue, g: GiveSignature) -> (
    Evaluation,
    CheckResult<KnownFunctionValue>,
) {
    let statement = spec_span(g.location);
    let (ev, r) = spec_lookup_signature(source, ev, g.signature);
    match r {
        Err(e) => (ev, Err(e)),
        Ok((id, lambda)) => match value.resolver.spec_produced_signature_id(source, span_name(source, spec_span(g.signature.symbol))) {
            Some(other) => (
                ev,
                Err(
                    if other == id {
                        CheckError::CannotGiveSignatureTwice { signature: sig_name(g.signature), statement }
                    } else {
                        CheckError::CannotGiveTwoSignaturesWithIdenticalName { signature: sig_name(g.signature), statement }
                    },
                ),
            ),
            None => (
                ev,
                Ok(
                    KnownFunctionValue {
                        given_signatures: map_insert(value.given_signatures, id, lambda),
                        resolver: value.resolver.spec_insert_produced_signature(source, id, sig_name(g.signature), statement),
                        ..value
                    },
                ),
            ),
        },
    }
}

/// A function given by a function definition; no two given functions share
/// a name.
pub open spec fn spec_give_function(source: &Source, ev: Evaluation, value: KnownFunctionValue, g: GiveFunction) -> (
    Evaluation,
    CheckResult<KnownFunctionValue>,
) {
    let statement = spec_span(g.location);
    let (ev, r) = spec_lookup_function(source, ev, g.function);
    match r {
        Err(e) => (ev, Err(e)),
        Ok((id, lambda)) => match value.resolver.spec_produced_function_id(source, span_name(source, spec_span(g.function.symbol))) {
            Some(other) => (
                ev,
                Err(
                    if other == id {
                        CheckError::CannotGiveFunctionTwice { function: fn_name(g.function), statement }
                    } else {
                        CheckError::CannotGiveTwoFunctionsWithIdenticalName { function: fn_name(g.function), statement }
                    },
                ),
            ),
            None => (
                ev,
                Ok(
                    KnownFunctionValue {
                        given_functions: map_insert(value.given_functions, id, lambda),
                        resolver: value.resolver.spec_insert_produced_function(source, id, fn_name(g.function), statement),
                        ..value
                    },
                ),
            ),
        },
    }
}

impl EvaluationState {
    pub fn take_signature_from(&mut self, source: &Source, statement: Span, t: &TakeSignatureFrom) -> (r: CheckResult<SignatureLambda>)
        requires
            old(self).wf(),
        ensures
            final(self).wf(),
            final(self).frames@.len() == old(self).frames@.len(),
            final(self).next_id == old(self).next_id,
            (final(self).model(), r) == spec_take_signature_from(source, old(self).model(), statement, *t),
    {
        let (_, lambda) = self.lookup_function(source, &t.source)?;
        signature_from_function(source, statement, &t.foreign, &t.source, &lambda)
    }

    pub fn take_function_from(&mut self, source: &Source, statement: Span, t: &TakeFunctionFrom) -> (r: CheckResult<FunctionLambda>)
        requires
            old(self).wf(),
        ensures
            final(self).wf(),
            final(self).frames@.len() == old(self).frames@.len(),
            final(self).next_id == old(self).next_id,
            (final(self).model(), r) == spec_take_function_from(source, old(self).model(), statement, *t),
    {
        let (_, lambda) = self.lookup_function(source, &t.source)?;
        function_from_function(source, statement, &t.foreign, &t.source, &lambda)
    }

    pub fn signature_to_signature(&mut self, source: &Source, statement: Span, g: &GiveSignatureToSignature) -> (r: CheckResult<SignatureLambda>)
        requires
            old(self).wf(),
        ensures
            final(self).wf(),
            final(self).frames@.len() == old(self).frames@.len(),
            final(self).next_id == old(self).next_id,
            (final(self).model(), r) == spec_signature_to_signature(source, old(self).model(), statement, *g),
    {
        let (_, given) = self.lookup_signature(source, &g.signature)?;
        let (_, target) = self.lookup_signature(source, &g.source)?;
        give_signature_to_signature(source, statement, g, &given, &target)
    }

    pub fn function_to_signature(&mut self, source: &Source, statement: Span, g: &GiveFunctionToSignature) -> (r: CheckResult<SignatureLambda>)
        requires
            old(self).wf(),
        ensures
            final(self).wf(),
            final(self).frames@.len() == old(self).frames@.len(),
            final(self).next_id == old(self).next_id,
            (final(self).model(), r) == spec_function_to_signature(source, old(self).model(), statement, *g),
    {
        let (_, given) = self.lookup_function(source, &g.function)?;
        let (_, target) = self.lookup_signature(source, &g.source)?;
        give_function_to_signature(source, statement, g, &given, &target)
    }

    pub fn signature_to_function(&mut self, source: &Source, statement: Span, g: &GiveSignatureToFunction) -> (r: CheckResult<FunctionLambda>)
        requires
            old(self).wf(),
        ensures
            final(self).wf(),
            final(self).frames@.len() == old(self).frames@.len(),
            final(self).next_id == old(self).next_id,
            (final(self).model(), r) == spec_signature_to_function(source, old(self).model(), statement, *g),
    {
        let (_, given) = self.lookup_signature(source, &g.signature)?;
        let (_, target) = self.lookup_function(source, &g.source)?;
        give_signature_to_function(source, statement, g, &given, &target)
    }

    pub fn function_to_function(&mut self, source: &Source, statement: Span, g: &GiveFunctionToFunction) -> (r: CheckResult<FunctionLambda>)
        requires
            old(self).wf(),
        ensures
            final(self).wf(),
            final(self).frames@.len() == old(self).frames@.len(),
            final(self).next_id == old(self).next_id,
            (final(self).model(), r) == spec_function_to_function(source, old(self).model(), statement, *g),
    {
        let (_, given) = self.lookup_function(source, &g.function)?;
        let (_, target) = self.lookup_function(source, &g.source)?;
        give_function_to_function(source, statement, g, &given, &target)
    }

    pub fn take_function(&mut self, source: &Source, takes: Takes, id: u64, lhs: &Function, t: &TakeFunction, statement: Span) -> (r:
        CheckResult<(FunctionLambda, Takes)>)
        requires
            old(self).wf(),
        ensures
            final(self).wf(),
            final(self).frames@.len() == old(self).frames@.len(),
            final(self).next_id == old(self).next_id,
            (final(self).model(), r) == spec_take_function(source, old(self).model(), takes, id, *lhs, *t, statement),
    {
        let (_, signature) = self.lookup_signature(source, &t.signature)?;
        let takes = register_function(source, takes, id, lhs, &signature.signature, statement)?;
        let own = LambdaDependencies {
            signatures: Items::Nil,
            functions: Items::Cons(Rc::new((id, signature.signature.copy())), Rc::new(Items::Nil)),
        };
        let dependencies = own.checked_add(&signature.dependencies)?;
        Ok((FunctionLambda { function: taken_function_value(id, &signature.signature), dependencies }, takes))
    }

    pub fn conjure_dependencies(&mut self, source: &Source, acc: LambdaDependencies, l: &ConjureDependencies) -> (r: CheckResult<
        LambdaDependencies,
    >)
        requires
            old(self).wf(),
        ensures
            final(self).wf(),
            final(self).frames@.len() == old(self).frames@.len(),
            final(self).next_id == old(self).next_id,
            (final(self).model(), r) == spec_conjure_dependencies(source, old(self).model(), acc, *l),
        decreases l,
    {
        match l {
            List::Nil => Ok(acc),
            List::Cons(d, rest) => {
                let dependencies = match &**d {
                    ConjureDependency::Signature(s) => {
                        let (_, lambda) = self.lookup_signature(source, s)?;
                        lambda.dependencies
                    },
                    ConjureDependency::Function(f) => {
                        let (_, lambda) = self.lookup_function(source, f)?;
                        lambda.dependencies
                    },
                };
                let acc = acc.checked_add(&dependencies)?;
                self.conjure_dependencies(source, acc, &**rest)
            },
        }
    }

    pub fn conjure_signature(&mut self, source: &Source, ids: &Vec<u64>, value: KnownSignatureValue, c: &ConjureSignature) -> (r:
        CheckResult<KnownSignatureValue>)
        requires
            old(self).wf(),
            old(self).next_id < ids@.len(),
        ensures
            final(self).wf(),
            final(self).frames@.len() == old(self).frames@.len(),
            final(self).next_id == old(self).next_id + 1,
            (final(self).model(), r) == spec_conjure_signature(source, ids@, old(self).model(), value, *c),
    {
        let id = self.fresh_id(ids);
        let statement = span_of(&c.location);
        if value.resolver.produced_signature_id(source, span_of(&c.signature.symbol)).is_some() {
            return Err(CheckError::CannotConjureTwoSignaturesWithIdenticalName { signature: signature_name(&c.signature), statement });
        }
        let dependencies = self.conjure_dependencies(source, LambdaDependencies::new(), &c.dependencies)?;
        self.resolver.insert_signature(id, signature_name(&c.signature), statement);
        Ok(KnownSignatureValue {
            conjured_signatures: insert(&value.conjured_signatures, id, SignatureConjuration { dependencies }),
            resolver: value.resolver.insert_produced_signature(source, id, signature_name(&c.signature), statement),
            conjured_functions: value.conjured_functions,
            taken_signatures: value.taken_signatures,
            taken_functions: value.taken_functions,
        })
    }

    pub fn conjure_function(&mut self, source: &Source, ids: &Vec<u64>, value: KnownSignatureValue, c: &ConjureFunction) -> (r:
        CheckResult<KnownSignatureValue>)
        requires
            old(self).wf(),
            old(self).next_id < ids@.len(),
        ensures
            final(self).wf(),
            final(self).frames@.len() == old(self).frames@.len(),
            final(self).next_id == old(self).next_id + 1,
            (final(self).model(), r) == spec_conjure_function(source, ids@, old(self).model(), value, *c),
    {
        let id = self.fresh_id(ids);
        let statement = span_of(&c.location);
        if value.resolver.produced_function_id(source, span_of(&c.function.symbol)).is_some() {
            return Err(CheckError::CannotConjureTwoFunctionsWithIdenticalName { function: span_of(&c.function.symbol), statement });
        }
        let dependencies = self.conjure_dependencies(source, LambdaDependencies::new(), &c.dependencies)?;
        let (_, signature) = self.lookup_signature(source, &c.signature)?;
        let dependencies = dependencies.checked_add(&signature.dependencies)?;
        self.resolver.insert_function(id, span_of(&c.function.symbol), statement);
        Ok(KnownSignatureValue {
            conjured_functions: insert(
                &value.conjured_functions,
                id,
                FunctionConjuration { signature: signature.signature, dependencies },
            ),
            resolver: value.resolver.insert_produced_function(source, id, span_of(&c.function.symbol), statement),
            conjured_signatures: value.conjured_signatures,
            taken_signatures: value.taken_signatures,
            taken_functions: value.taken_functions,
        })
    }

    pub fn give_signature(&mut self, source: &Source, value: KnownFunctionValue, g: &GiveSignature) -> (r: CheckResult<
        KnownFunctionValue,
    >)
        requires
            old(self).wf(),
        ensures
            final(self).wf(),
            final(self).frames@.len() == old(self).frames@.len(),
            final(self).next_id == old(self).next_id,
            (final(self).model(), r) == spec_give_signature(source, old(self).model(), value, *g),
    {
        let statement = span_of(&g.location);
        let (id, lambda) = self.lookup_signature(source, &g.signature)?;
        if let Some(other) = value.resolver.produced_signature_id(source, span_of(&g.signature.symbol)) {
            return Err(
                if other == id {
                    CheckError::CannotGiveSignatureTwice { signature: signature_name(&g.signature), statement }
                } else {
                    CheckError::CannotGiveTwoSignaturesWithIdenticalName { signature: signature_name(&g.signature), statement }
                },
            );
        }
        Ok(KnownFunctionValue {
            given_signatures: insert(&value.given_signatures, id, lambda),
            resolver: value.resolver.insert_produced_signature(source, id, signature_name(&g.signature), statement),
            given_functions: value.given_functions,
            taken_signatures: value.taken_signatures,
            taken_functions: value.taken_functions,
        })
    }

    pub fn give_function(&mut self, source: &Source, value: KnownFunctionValue, g: &GiveFunction) -> (r: CheckResult<
        KnownFunctionValue,
    >)
        requires
            old(self).wf(),
        ensures
            final(self).wf(),
            final(self).frames@.len() == old(self).frames@.len(),
            final(self).next_id == old(self).next_id,
            (final(self).model(), r) == spec_give_function(source, old(self).model(), value, *g),
    {
        let statement = span_of(&g.location);
        let (id, lambda) = self.lookup_function(source, &g.function)?;
        if let Some(other) = value.resolver.produced_function_id(source, span_of(&g.function.symbol)) {
            return Err(
                if other == id {
                    CheckError::CannotGiveFunctionTwice { function: span_of(&g.function.symbol), statement }
                } else {
                    CheckError::CannotGiveTwoFunctionsWithIdenticalName { function: span_of(&g.function.symbol), statement }
                },
            );
        }
        Ok(KnownFunctionValue {
            given_functions: insert(&value.given_functions, id, lambda),
            resolver: value.resolver.insert_produced_function(source, id, span_of(&g.function.symbol), statement),
            given_signatures: value.given_signatures,
            taken_signatures: value.taken_signatures,
            taken_functions: value.taken_functions,
        })
    }
}

pub open spec fn takes_of_signature(v: KnownSignatureValue) -> Takes {
    Takes { signatures: v.taken_signatures, functions: v.taken_functions, resolver: v.resolver }
}

pub open spec fn with_takes_of_signature(v: KnownSignatureValue, t: Takes) -> KnownSignatureValue {
    KnownSignatureValue { taken_signatures: t.signatures, taken_functions: t.functions, resolver: t.resolver, ..v }
}

pub open spec fn takes_of_function(v: KnownFunctionValue) -> Takes {
    Takes { signatures: v.taken_signatures, functions: v.taken_functions, resolver: v.resolver }
}

pub open spec fn with_takes_of_function(v: KnownFunctionValue, t: Takes) -> KnownFunctionValue {
    KnownFunctionValue { taken_signatures: t.signatures, taken_functions: t.functions, resolver: t.resolver, ..v }
}

/// A signature assignment: the left-hand side gets a fresh identifier, the
/// right-hand side is evaluated to a lambda, and the name is bound to it. A
/// taken signature is registered in `takes`.
pub open spec fn spec_process_signature_assignment(
    source: &Source,
    ids: Seq<u64>,
    ev: Evaluation,
    trace: bool,
    takes: Takes,
    a: SignatureAssignment,
) -> (Evaluation, CheckResult<Takes>)
    decreases a,
{
    let id = ids[ev.next_id];
    let ev = Evaluation { next_id: ev.next_id + 1, ..ev };
    let statement = spec_span(a.location);
    let (ev, r) = match a.rhs {
        SignatureAssignmentRhs::Take(_) => match spec_register_signature(source, takes, id, a.lhs, statement) {
            Err(e) => (ev, Err(e)),
            Ok(takes) => (ev, Ok((spec_taken_signature_lambda(id), takes))),
        },
        SignatureAssignmentRhs::Define(d) => {
            let (ev, r) = spec_define_signature(source, ids, ev, d);
            (
                ev,
                match r {
                    Err(e) => Err(e),
                    Ok(lambda) => Ok((lambda, takes)),
                },
            )
        },
        SignatureAssignmentRhs::TakeFrom(t) => {
            let (ev, r) = spec_take_signature_from(source, ev, statement, t);
            (
                ev,
                match r {
                    Err(e) => Err(e),
                    Ok(lambda) => Ok((lambda, takes)),
                },
            )
        },
        SignatureAssignmentRhs::GiveSignatureToSignature(g) => {
            let (ev, r) = spec_signature_to_signature(source, ev, statement, g);
            (
                ev,
                match r {
                    Err(e) => Err(e),
                    Ok(lambda) => Ok((lambda, takes)),
                },
            )
        },
        SignatureAssignmentRhs::GiveFunctionToSignature(g) => {
            let (ev, r) = spec_function_to_signature(source, ev, statement, g);
            (
                ev,
                match r {
                    Err(e) => Err(e),
                    Ok(lambda) => Ok((lambda, takes)),
                },
            )
        },
    };
    match r {
        Err(e) => (ev, Err(e)),
        Ok((lambda, takes)) => (spec_bind_signature(source, ev, trace, a.lhs, id, lambda, statement), Ok(takes)),
    }
}

/// A function assignment, in the same way.
pub open spec fn spec_process_function_assignment(
    source: &Source,
    ids: Seq<u64>,
    ev: Evaluation,
    trace: bool,
    takes: Takes,
    a: FunctionAssignment,
) -> (Evaluation, CheckResult<Takes>)
    decreases a,
{
    let id = ids[ev.next_id];
    let ev = Evaluation { next_id: ev.next_id + 1, ..ev };
    let statement = spec_span(a.location);
    let (ev, r) = match a.rhs {
        FunctionAssignmentRhs::Take(t) => spec_take_function(source, ev, takes, id, a.lhs, t, statement),
        FunctionAssignmentRhs::Define(d) => {
            let (ev, r) = spec_define_function(source, ids, ev, d);
            (
                ev,
                match r {
                    Err(e) => Err(e),
                    Ok(lambda) => Ok((lambda, takes)),
                },
            )
        },
        FunctionAssignmentRhs::TakeFrom(t) => {
            let (ev, r) = spec_take_function_from(source, ev, statement, t);
            (
                ev,
                match r {
                    Err(e) => Err(e),
                    Ok(lambda) => Ok((lambda, takes)),
                },
            )
        },
        FunctionAssignmentRhs::GiveSignatureToFunction(g) => {
            let (ev, r) = spec_signature_to_function(source, ev, statement, g);
            (
                ev,
                match r {
                    Err(e) => Err(e),
                    Ok(lambda) => Ok((lambda, takes)),
                },
            )
        },
        FunctionAssignmentRhs::GiveFunctionToFunction(g) => {
            let (ev, r) = spec_function_to_function(source, ev, statement, g);
            (
                ev,
                match r {
                    Err(e) => Err(e),
                    Ok(lambda) => Ok((lambda, takes)),
                },
            )
        },
    };
    match r {
        Err(e) => (ev, Err(e)),
        Ok((lambda, takes)) => (spec_bind_function(source, ev, trace, a.lhs, id, lambda, statement), Ok(takes)),
    }
}

/// A signature definition, evaluated in a frame of its own; its lambda
/// depends on what the lambdas it took from enclosing frames depend on.
pub open spec fn spec_define_signature(source: &Source, ids: Seq<u64>, ev: Evaluation, d: DefineSignature) -> (
    Evaluation,
    CheckResult<SignatureLambda>,
)
    decreases d,
{
    let inner = Evaluation { frames: ev.frames.push(Frame::empty()), ..ev };
    let (ev, r) = spec_evaluate_signature_context(source, ids, inner, d.context);
    let dependencies = ev.frames.last().dependencies;
    (
        Evaluation { frames: ev.frames.drop_last(), ..ev },
        match r {
            Err(e) => Err(e),
            Ok(value) => Ok(SignatureLambda { signature: SignatureValue::Known(Rc::new(value)), dependencies }),
        },
    )
}

/// The value of a signature context: its statements, from a signature that
/// takes and conjures nothing.
pub open spec fn spec_evaluate_signature_context(source: &Source, ids: Seq<u64>, ev: Evaluation, context: SignatureContext) -> (
    Evaluation,
    CheckResult<KnownSignatureValue>,
)
    decreases context,
{
    spec_evaluate_signature_statements(source, ids, ev, context.trace, KnownSignatureValue::empty(), context.statements)
}

/// A function definition, evaluated in a frame of its own.
pub open spec fn spec_define_function(source: &Source, ids: Seq<u64>, ev: Evaluation, d: DefineFunction) -> (
    Evaluation,
    CheckResult<FunctionLambda>,
)
    decreases d,
{
    let inner = Evaluation { frames: ev.frames.push(Frame::empty()), ..ev };
    let (ev, r) = spec_evaluate_function_context(source, ids, inner, d.context);
    let dependencies = ev.frames.last().dependencies;
    (
        Evaluation { frames: ev.frames.drop_last(), ..ev },
        match r {
            Err(e) => Err(e),
            Ok(value) => Ok(FunctionLambda { function: FunctionValue::Known(Rc::new(value)), dependencies }),
        },
    )
}

/// The value of a function context: its statements, from a function that
/// takes and gives nothing.
pub open spec fn spec_evaluate_function_context(source: &Source, ids: Seq<u64>, ev: Evaluation, context: FunctionContext) -> (
    Evaluation,
    CheckResult<KnownFunctionValue>,
)
    decreases context,
{
    spec_evaluate_function_statements(source, ids, ev, context.trace, KnownFunctionValue::empty(), context.statements)
}

/// The statements of a signature definition, in order, each adding to
/// `value`; the first error ends the evaluation.
pub open spec fn spec_evaluate_signature_statements(
    source: &Source,
    ids: Seq<u64>,
    ev: Evaluation,
    trace: bool,
    value: KnownSignatureValue,
    l: List<SignatureStatement>,
) -> (Evaluation, CheckResult<KnownSignatureValue>)
    decreases l,
{
    match l {
        List::Nil => (ev, Ok(value)),
        List::Cons(statement, rest) => {
            let (ev, r) = spec_evaluate_signature_statement(source, ids, ev, trace, value, *statement);
            match r {
                Err(e) => (ev, Err(e)),
                Ok(value) => spec_evaluate_signature_statements(source, ids, ev, trace, value, *rest),
            }
        },
    }
}

pub open spec fn spec_evaluate_signature_statement(
    source: &Source,
    ids: Seq<u64>,
    ev: Evaluation,
    trace: bool,
    value: KnownSignatureValue,
    statement: SignatureStatement,
) -> (Evaluation, CheckResult<KnownSignatureValue>)
    decreases statement,
{
    match statement {
        SignatureStatement::SignatureAssignment(a) => {
            let (ev, r) = spec_process_signature_assignment(source, ids, ev, trace, takes_of_signature(value), a);
            (
                ev,
                match r {
                    Err(e) => Err(e),
                    Ok(takes) => Ok(with_takes_of_signature(value, takes)),
                },
            )
        },
        SignatureStatement::FunctionAssignment(a) => {
            let (ev, r) = spec_process_function_assignment(source, ids, ev, trace, takes_of_signature(value), a);
            (
                ev,
                match r {
                    Err(e) => Err(e),
                    Ok(takes) => Ok(with_takes_of_signature(value, takes)),
                },
            )
        },
        SignatureStatement::ConjureSignature(c) => spec_conjure_signature(source, ids, ev, value, c),
        SignatureStatement::ConjureFunction(c) => spec_conjure_function(source, ids, ev, value, c),
    }
}

/// The statements of a function definition, in order, each adding to `value`.
pub open spec fn spec_evaluate_function_statements(
    source: &Source,
    ids: Seq<u64>,
    ev: Evaluation,
    trace: bool,
    value: KnownFunctionValue,
    l: List<FunctionStatement>,
) -> (Evaluation, CheckResult<KnownFunctionValue>)
    decreases l,
{
    match l {
        List::Nil => (ev, Ok(value)),
        List::Cons(statement, rest) => {
            let (ev, r) = spec_evaluate_function_statement(source, ids, ev, trace, value, *statement);
            match r {
                Err(e) => (ev, Err(e)),
                Ok(value) => spec_evaluate_function_statements(source, ids, ev, trace, value, *rest),
            }
        },
    }
}

pub open spec fn spec_evaluate_function_statement(
    source: &Source,
    ids: Seq<u64>,
    ev: Evaluation,
    trace: bool,
    value: KnownFunctionValue,
    statement: FunctionStatement,
) -> (Evaluation, CheckResult<KnownFunctionValue>)
    decreases statement,
{
    match statement {
        FunctionStatement::SignatureAssignment(a) => {
            let (ev, r) = spec_process_signature_assignment(source, ids, ev, trace, takes_of_function(value), a);
            (
                ev,
                match r {
                    Err(e) => Err(e),
                    Ok(takes) => Ok(with_takes_of_function(value, takes)),
                },
            )
        },
        FunctionStatement::FunctionAssignment(a) => {
            let (ev, r) = spec_process_function_assignment(source, ids, ev, trace, takes_of_function(value), a);
            (
                ev,
                match r {
                    Err(e) => Err(e),
                    Ok(takes) => Ok(with_takes_of_function(value, takes)),
                },
            )
        },
        FunctionStatement::GiveSignature(g) => spec_give_signature(source, ev, value, g),
        FunctionStatement::GiveFunction(g) => spec_give_function(source, ev, value, g),
    }
}

impl EvaluationState {
    pub fn process_signature_assignment(&mut self, source: &Source, ids: &Vec<u64>, trace: bool, takes: Takes, a: &SignatureAssignment) -> (r: CheckResult<Takes>)
        requires
            old(self).wf(),
            old(self).next_id + signature_assignment_ids(*a) <= ids@.len(),
        ensures
            final(self).wf(),
            final(self).frames@.len() == old(self).frames@.len(),
            old(self).next_id <= final(self).next_id <= old(self).next_id + signature_assignment_ids(*a),
            (final(self).model(), r) == spec_process_signature_assignment(source, ids@, old(self).model(), trace, takes, *a),
            r is Ok ==> spec_resolve_signature(source, final(self).frames@, a.lhs) == Ok::<u64, CheckError>(
                ids@[old(self).next_id as int],
            ),
        decreases a,
    {
        let id = self.fresh_id(ids);
        let statement = span_of(&a.location);
        let (lambda, takes) = match &a.rhs {
            SignatureAssignmentRhs::Take(_) => {
                let takes = register_signature(source, takes, id, &a.lhs, statement)?;
                (taken_signature_lambda(id), takes)
            },
            SignatureAssignmentRhs::Define(d) => (self.define_signature(source, ids, d)?, takes),
            SignatureAssignmentRhs::TakeFrom(t) => (self.take_signature_from(source, statement, t)?, takes),
            SignatureAssignmentRhs::GiveSignatureToSignature(g) => (self.signature_to_signature(source, statement, g)?, takes),
            SignatureAssignmentRhs::GiveFunctionToSignature(g) => (self.function_to_signature(source, statement, g)?, takes),
        };
        proof {
            lemma_bound_signature_resolves(source, self.model(), trace, a.lhs, id, lambda, statement);
        }
        self.bind_signature(source, trace, &a.lhs, id, lambda, statement);
        Ok(takes)
    }

    pub fn process_function_assignment(&mut self, source: &Source, ids: &Vec<u64>, trace: bool, takes: Takes, a: &FunctionAssignment) -> (r: CheckResult<Takes>)
        requires
            old(self).wf(),
            old(self).next_id + function_assignment_ids(*a) <= ids@.len(),
        ensures
            final(self).wf(),
            final(self).frames@.len() == old(self).frames@.len(),
            old(self).next_id <= final(self).next_id <= old(self).next_id + function_assignment_ids(*a),
            (final(self).model(), r) == spec_process_function_assignment(source, ids@, old(self).model(), trace, takes, *a),
            r is Ok ==> spec_resolve_function(source, final(self).frames@, a.lhs) == Ok::<u64, CheckError>(
                ids@[old(self).next_id as int],
            ),
        decreases a,
    {
        let id = self.fresh_id(ids);
        let statement = span_of(&a.location);
        let (lambda, takes) = match &a.rhs {
            FunctionAssignmentRhs::Take(t) => self.take_function(source, takes, id, &a.lhs, t, statement)?,
            FunctionAssignmentRhs::Define(d) => (self.define_function(source, ids, d)?, takes),
            FunctionAssignmentRhs::TakeFrom(t) => (self.take_function_from(source, statement, t)?, takes),
            FunctionAssignmentRhs::GiveSignatureToFunction(g) => (self.signature_to_function(source, statement, g)?, takes),
            FunctionAssignmentRhs::GiveFunctionToFunction(g) => (self.function_to_function(source, statement, g)?, takes),
        };
        proof {
            lemma_bound_function_resolves(source, self.model(), trace, a.lhs, id, lambda, statement);
        }
        self.bind_function(source, trace, &a.lhs, id, lambda, statement);
        Ok(takes)
    }

    pub fn define_signature(&mut self, source: &Source, ids: &Vec<u64>, d: &DefineSignature) -> (r: CheckResult<SignatureLambda>)
        requires
            old(self).wf(),
            old(self).next_id + signature_statements_ids(d.context.statements) <= ids@.len(),
        ensures
            final(self).wf(),
            final(self).frames@.len() == old(self).frames@.len(),
            old(self).next_id <= final(self).next_id <= old(self).next_id + signature_statements_ids(d.context.statements),
            (final(self).model(), r) == spec_define_signature(source, ids@, old(self).model(), *d),
        decreases d,
    {
        self.frames.push(Frame::new());
        let r = self.evaluate_signature_context(source, ids, &d.context);
        let frame = self.frames.pop().unwrap();
        match r {
            Err(e) => Err(e),
            Ok(value) => Ok(SignatureLambda { signature: SignatureValue::Known(Rc::new(value)), dependencies: frame.dependencies }),
        }
    }

    /// Evaluates the statements of a signature context, from a signature that
    /// takes nothing and conjures nothing.
    pub fn evaluate_signature_context(&mut self, source: &Source, ids: &Vec<u64>, context: &SignatureContext) -> (r: CheckResult<KnownSignatureValue>)
        requires
            old(self).wf(),
            old(self).next_id + signature_statements_ids(context.statements) <= ids@.len(),
        ensures
            final(self).wf(),
            final(self).frames@.len() == old(self).frames@.len(),
            old(self).next_id <= final(self).next_id <= old(self).next_id + signature_statements_ids(context.statements),
            (final(self).model(), r) == spec_evaluate_signature_context(source, ids@, old(self).model(), *context),
        decreases context,
    {
        self.evaluate_signature_statements(source, ids, context.trace, KnownSignatureValue::new(), &context.statements)
    }

    pub fn define_function(&mut self, source: &Source, ids: &Vec<u64>, d: &DefineFunction) -> (r: CheckResult<FunctionLambda>)
        requires
            old(self).wf(),
            old(self).next_id + function_statements_ids(d.context.statements) <= ids@.len(),
        ensures
            final(self).wf(),
            final(self).frames@.len() == old(self).frames@.len(),
            old(self).next_id <= final(self).next_id <= old(self).next_id + function_statements_ids(d.context.statements),
            (final(self).model(), r) == spec_define_function(source, ids@, old(self).model(), *d),
        decreases d,
    {
        self.frames.push(Frame::new());
        let r = self.evaluate_function_context(source, ids, &d.context);
        let frame = self.frames.pop().unwrap();
        match r {
            Err(e) => Err(e),
            Ok(value) => Ok(FunctionLambda { function: FunctionValue::Known(Rc::new(value)), dependencies: frame.dependencies }),
        }
    }

    /// Evaluates the statements of a function context, from a function that
    /// takes nothing and gives nothing.
    pub fn evaluate_function_context(&mut self, source: &Source, ids: &Vec<u64>, context: &FunctionContext) -> (r: CheckResult<KnownFunctionValue>)
        requires
            old(self).wf(),
            old(self).next_id + function_statements_ids(context.statements) <= ids@.len(),
        ensures
            final(self).wf(),
            final(self).frames@.len() == old(self).frames@.len(),
            old(self).next_id <= final(self).next_id <= old(self).next_id + function_statements_ids(context.statements),
            (final(self).model(), r) == spec_evaluate_function_context(source, ids@, old(self).model(), *context),
        decreases context,
    {
        self.evaluate_function_statements(source, ids, context.trace, KnownFunctionValue::new(), &context.statements)
    }

    pub fn evaluate_signature_statements(&mut self, source: &Source, ids: &Vec<u64>, trace: bool, value: KnownSignatureValue, l: &List<SignatureStatement>) -> (r: CheckResult<KnownSignatureValue>)
        requires
            old(self).wf(),
            old(self).next_id + signature_statements_ids(*l) <= ids@.len(),
        ensures
            final(self).wf(),
            final(self).frames@.len() == old(self).frames@.len(),
            old(self).next_id <= final(self).next_id <= old(self).next_id + signature_statements_ids(*l),
            (final(self).model(), r) == spec_evaluate_signature_statements(source, ids@, old(self).model(), trace, value, *l),
        decreases l,
    {
        match l {
            List::Nil => Ok(value),
            List::Cons(statement, rest) => {
                let value = self.evaluate_signature_statement(source, ids, trace, value, &**statement)?;
                self.evaluate_signature_statements(source, ids, trace, value, &**rest)
            },
        }
    }

    pub fn evaluate_function_statements(&mut self, source: &Source, ids: &Vec<u64>, trace: bool, value: KnownFunctionValue, l: &List<FunctionStatement>) -> (r: CheckResult<KnownFunctionValue>)
        requires
            old(self).wf(),
            old(self).next_id + function_statements_ids(*l) <= ids@.len(),
        ensures
            final(self).wf(),
            final(self).frames@.len() == old(self).frames@.len(),
            old(self).next_id <= final(self).next_id <= old(self).next_id + function_statements_ids(*l),
            (final(self).model(), r) == spec_evaluate_function_statements(source, ids@, old(self).model(), trace, value, *l),
        decreases l,
    {
        match l {
            List::Nil => Ok(value),
            List::Cons(statement, rest) => {
                let value = self.evaluate_function_statement(source, ids, trace, value, &**statement)?;
                self.evaluate_function_statements(source, ids, trace, value, &**rest)
            },
        }
    }

    pub fn evaluate_signature_statement(&mut self, source: &Source, ids: &Vec<u64>, trace: bool, value: KnownSignatureValue, statement: &SignatureStatement) -> (r: CheckResult<KnownSignatureValue>)
        requires
            old(self).wf(),
            old(self).next_id + signature_statement_ids(*statement) <= ids@.len(),
        ensures
            final(self).wf(),
            final(self).frames@.len() == old(self).frames@.len(),
            old(self).next_id <= final(self).next_id <= old(self).next_id + signature_statement_ids(*statement),
            (final(self).model(), r) == spec_evaluate_signature_statement(source, ids@, old(self).model(), trace, value, *statement),
        decreases statement,
    {
        match statement {
            SignatureStatement::SignatureAssignment(a) => {
                let takes = Takes { signatures: value.taken_signatures, functions: value.taken_functions, resolver: value.resolver };
                let takes = self.process_signature_assignment(source, ids, trace, takes, a)?;
                Ok(KnownSignatureValue {
                    taken_signatures: takes.signatures,
                    taken_functions: takes.functions,
                    resolver: takes.resolver,
                    conjured_signatures: value.conjured_signatures,
                    conjured_functions: value.conjured_functions,
                })
            },
            SignatureStatement::FunctionAssignment(a) => {
                let takes = Takes { signatures: value.taken_signatures, functions: value.taken_functions, resolver: value.resolver };
                let takes = self.process_function_assignment(source, ids, trace, takes, a)?;
                Ok(KnownSignatureValue {
                    taken_signatures: takes.signatures,
                    taken_functions: takes.functions,
                    resolver: takes.resolver,
                    conjured_signatures: value.conjured_signatures,
                    conjured_functions: value.conjured_functions,
                })
            },
            SignatureStatement::ConjureSignature(c) => self.conjure_signature(source, ids, value, c),
            SignatureStatement::ConjureFunction(c) => self.conjure_function(source, ids, value, c),
        }
    }

    pub fn evaluate_function_statement(&mut self, source: &Source, ids: &Vec<u64>, trace: bool, value: KnownFunctionValue, statement: &FunctionStatement) -> (r: CheckResult<KnownFunctionValue>)
        requires
            old(self).wf(),
            old(self).next_id + function_statement_ids(*statement) <= ids@.len(),
        ensures
            final(self).wf(),
            final(self).frames@.len() == old(self).frames@.len(),
            old(self).next_id <= final(self).next_id <= old(self).next_id + function_statement_ids(*statement),
            (final(self).model(), r) == spec_evaluate_function_statement(source, ids@, old(self).model(), trace, value, *statement),
        decreases statement,
    {
        match statement {
            FunctionStatement::SignatureAssignment(a) => {
                let takes = Takes { signatures: value.taken_signatures, functions: value.taken_functions, resolver: value.resolver };
                let takes = self.process_signature_assignment(source, ids, trace, takes, a)?;
                Ok(KnownFunctionValue {
                    taken_signatures: takes.signatures,
                    taken_functions: takes.functions,
                    resolver: takes.resolver,
                    given_signatures: value.given_signatures,
                    given_functions: value.given_functions,
                })
            },
            FunctionStatement::FunctionAssignment(a) => {
                let takes = Takes { signatures: value.taken_signatures, functions: value.taken_functions, resolver: value.resolver };
                let takes = self.process_function_assignment(source, ids, trace, takes, a)?;
                Ok(KnownFunctionValue {
                    taken_signatures: takes.signatures,
                    taken_functions: takes.functions,
                    resolver: takes.resolver,
                    given_signatures: value.given_signatures,
                    given_functions: value.given_functions,
                })
            },
            FunctionStatement::GiveSignature(g) => self.give_signature(source, value, g),
            FunctionStatement::GiveFunction(g) => self.give_function(source, value, g),
        }
    }
}

pub fn signature_assignment_id_count(a: &SignatureAssignment) -> (n: Option<usize>)
    ensures
        match n {
            Some(n) => n == signature_assignment_ids(*a),
            None => signature_assignment_ids(*a) > usize::MAX,
        },
    decreases a,
{
    match &a.rhs {
        SignatureAssignmentRhs::Define(d) => match signature_statements_id_count(&d.context.statements) {
            Some(n) => n.checked_add(1),
            None => None,
        },
        _ => Some(1),
    }
}

pub fn function_assignment_id_count(a: &FunctionAssignment) -> (n: Option<usize>)
    ensures
        match n {
            Some(n) => n == function_assignment_ids(*a),
            None => function_assignment_ids(*a) > usize::MAX,
        },
    decreases a,
{
    match &a.rhs {
        FunctionAssignmentRhs::Define(d) => match function_statements_id_count(&d.context.statements) {
            Some(n) => n.checked_add(1),
            None => None,
        },
        _ => Some(1),
    }
}

/// How many identifiers the evaluation of the statements draws, where that
/// fits in a `usize`.
pub fn signature_statements_id_count(l: &List<SignatureStatement>) -> (n: Option<usize>)
    ensures
        match n {
            Some(n) => n == signature_statements_ids(*l),
            None => signature_statements_ids(*l) > usize::MAX,
        },
    decreases l,
{
    match l {
        List::Nil => Some(0),
        List::Cons(statement, rest) => {
            let first = match &**statement {
                SignatureStatement::SignatureAssignment(a) => signature_assignment_id_count(a),
                SignatureStatement::FunctionAssignment(a) => function_assignment_id_count(a),
                SignatureStatement::ConjureSignature(_) => Some(1),
                SignatureStatement::ConjureFunction(_) => Some(1),
            };
            assert(match first {
                Some(a) => a == signature_statement_ids(**statement),
                None => signature_statement_ids(**statement) > usize::MAX,
            });
            match (first, signature_statements_id_count(&**rest)) {
                (Some(a), Some(b)) => a.checked_add(b),
                _ => None,
            }
        },
    }
}

pub fn function_statements_id_count(l: &List<FunctionStatement>) -> (n: Option<usize>)
    ensures
        match n {
            Some(n) => n == function_statements_ids(*l),
            None => function_statements_ids(*l) > usize::MAX,
        },
    decreases l,
{
    match l {
        List::Nil => Some(0),
        List::Cons(statement, rest) => {
            let first = match &**statement {
                FunctionStatement::SignatureAssignment(a) => signature_assignment_id_count(a),
                FunctionStatement::FunctionAssignment(a) => function_assignment_id_count(a),
                FunctionStatement::GiveSignature(_) => Some(0),
                FunctionStatement::GiveFunction(_) => Some(0),
            };
            assert(match first {
                Some(a) => a == function_statement_ids(**statement),
                None => function_statement_ids(**statement) > usize::MAX,
            });
            match (first, function_statements_id_count(&**rest)) {
                (Some(a), Some(b)) => a.checked_add(b),
                _ => None,
            }
        },
    }
}

/// What a check of a function context reports: the value of the context or
/// the first error, the names and statements of every signature and function
/// met on the way, and the lambdas bound in contexts marked `TRACE`.
pub struct CheckOutcome {
    pub result: CheckResult<KnownFunctionValue>,
    pub resolver: Resolver,
    pub trace: Vec<TraceEntry>,
}

/// The evaluation of a function context, as the top-level context, with the
/// identifiers `ids`.
pub open spec fn spec_check(source: &Source, ids: Seq<u64>, context: FunctionContext) -> (Evaluation, CheckResult<KnownFunctionValue>) {
    spec_evaluate_function_context(source, ids, initial_evaluation(), context)
}

/// Whether `outcome` is what the check of `context` with the identifiers
/// `ids` reports.
pub open spec fn reports(source: &Source, context: FunctionContext, ids: Seq<u64>, outcome: CheckOutcome) -> bool {
    let (ev, r) = spec_check(source, ids, context);
    &&& ids.len() == function_statements_ids(context.statements)
    &&& outcome.result == r
    &&& outcome.resolver == ev.resolver
    &&& outcome.trace@ == ev.trace
}

/// Checks a function context, drawing its identifiers, in order, from `ids`.
pub fn check_function_context_with_ids(source: &Source, context: &FunctionContext, ids: &Vec<u64>) -> (outcome: CheckOutcome)
    requires
        function_statements_ids(context.statements) <= ids@.len(),
    ensures
        ({
            let (ev, r) = spec_check(source, ids@, *context);
            &&& outcome.result == r
            &&& outcome.resolver == ev.resolver
            &&& outcome.trace@ == ev.trace
        }),
{
    let mut state = EvaluationState::new();
    let result = state.evaluate_function_context(source, ids, context);
    CheckOutcome { result, resolver: state.resolver, trace: state.trace }
}

/// A fresh identifier: eight bytes from the operating system's random source,
/// by `rand::rngs::OsRng` and `RngCore::try_fill_bytes`, read little-endian.
/// Trusted: nothing is claimed of the value; where the random source fails,
/// the result is `None` (the call returns the error and does not panic).
#[verifier::external_body]
fn random_id() -> (id: Option<u64>) {
    let mut bytes = [0u8; 8];
    match rand::rngs::OsRng.try_fill_bytes(&mut bytes) {
        Ok(()) => Some(u64::from_le_bytes(bytes)),
        Err(_) => None,
    }
}

/// Checks a function context, with identifiers drawn at random, one for each
/// assignment and conjuration in the context. Where one can be drawn for
/// each, the outcome is what the check reports for some sequence of
/// identifiers; where the random source fails, there is no outcome. A
/// context that needs no identifier always has its outcome.
pub fn check_function_context(source: &Source, context: &FunctionContext) -> (outcome: Option<CheckOutcome>)
    requires
        function_statements_ids(context.statements) <= usize::MAX,
    ensures
        outcome matches Some(outcome) ==> exists|ids: Seq<u64>| #[trigger] reports(source, *context, ids, outcome),
        function_statements_ids(context.statements) == 0 ==> (outcome matches Some(o) && reports(
            source,
            *context,
            Seq::<u64>::empty(),
            o,
        )),
{
    let n = function_statements_id_count(&context.statements).unwrap();
    let mut ids: Vec<u64> = Vec::new();
    while ids.len() < n
        invariant
            ids@.len() <= n,
            n == function_statements_ids(context.statements),
        decreases n - ids@.len(),
    {
        match random_id() {
            Some(id) => ids.push(id),
            None => return None,
        }
    }
    let outcome = check_function_context_with_ids(source, context, &ids);
    assert(reports(source, *context, ids@, outcome));
    assert(n == 0 ==> ids@ =~= Seq::<u64>::empty());
    Some(outcome)
}

/// Law: once a signature is bound, its name resolves, in the innermost frame,
/// to its identifier, and the identifier to the bound lambda.
pub proof fn lemma_bound_signature_resolves(
    source: &Source,
    ev: Evaluation,
    trace: bool,
    lhs: Signature,
    id: u64,
    lambda: SignatureLambda,
    statement: Span,
)
    requires
        ev.frames.len() >= 1,
    ensures
        ({
            let after = spec_bind_signature(source, ev, trace, lhs, id, lambda, statement);
            &&& spec_resolve_signature(source, after.frames, lhs) == Ok::<u64, CheckError>(id)
            &&& spec_signature_lambda(after.frames, id) == Ok::<(SignatureLambda, Seq<Frame>), CheckError>((lambda, after.frames))
        }),
{
    let f = ev.frames.last();
    lemma_names_get_insert(source, f.signature_ids, spec_span(lhs.symbol), id, span_name(source, spec_span(lhs.symbol)));
    lemma_map_get_insert(f.signature_lambdas, id, lambda, id);
}

/// Law: once a function is bound, its name resolves, in the innermost frame,
/// to its identifier, and the identifier to the bound lambda.
pub proof fn lemma_bound_function_resolves(
    source: &Source,
    ev: Evaluation,
    trace: bool,
    lhs: Function,
    id: u64,
    lambda: FunctionLambda,
    statement: Span,
)
    requires
        ev.frames.len() >= 1,
    ensures
        ({
            let after = spec_bind_function(source, ev, trace, lhs, id, lambda, statement);
            &&& spec_resolve_function(source, after.frames, lhs) == Ok::<u64, CheckError>(id)
            &&& spec_function_lambda(after.frames, id) == Ok::<(FunctionLambda, Seq<Frame>), CheckError>((lambda, after.frames))
        }),
{
    let f = ev.frames.last();
    lemma_names_get_insert(source, f.function_ids, spec_span(lhs.symbol), id, span_name(source, spec_span(lhs.symbol)));
    lemma_map_get_insert(f.function_lambdas, id, lambda, id);
}

/// Law: a signature given by a function context is found again under its
/// name among what the context produces, with the lambda it was given.
pub proof fn lemma_given_signature_is_found(source: &Source, ev: Evaluation, value: KnownFunctionValue, g: GiveSignature)
    ensures
        ({
            let (_, looked_up) = spec_lookup_signature(source, ev, g.signature);
            let (_, r) = spec_give_signature(source, ev, value, g);
            r matches Ok(given) ==> looked_up matches Ok((id, lambda)) && given.resolver.spec_produced_signature_id(
                source,
                span_name(source, spec_span(g.signature.symbol)),
            ) == Some(id) && map_get(given.given_signatures, id) == Some(lambda)
        }),
{
    let (_, looked_up) = spec_lookup_signature(source, ev, g.signature);
    if let Ok((id, lambda)) = looked_up {
        let name = span_name(source, spec_span(g.signature.symbol));
        lemma_names_get_insert(source, value.resolver.produced_signature_ids, spec_span(g.signature.symbol), id, name);
        lemma_map_get_insert(value.given_signatures, id, lambda, id);
    }
}

/// Law: a function given by a function context is found again under its
/// name among what the context produces, with the lambda it was given.
pub proof fn lemma_given_function_is_found(source: &Source, ev: Evaluation, value: KnownFunctionValue, g: GiveFunction)
    ensures
        ({
            let (_, looked_up) = spec_lookup_function(source, ev, g.function);
            let (_, r) = spec_give_function(source, ev, value, g);
            r matches Ok(given) ==> looked_up matches Ok((id, lambda)) && given.resolver.spec_produced_function_id(
                source,
                span_name(source, spec_span(g.function.symbol)),
            ) == Some(id) && map_get(given.given_functions, id) == Some(lambda)
        }),
{
    let (_, looked_up) = spec_lookup_function(source, ev, g.function);
    if let Ok((id, lambda)) = looked_up {
        let name = span_name(source, spec_span(g.function.symbol));
        lemma_names_get_insert(source, value.resolver.produced_function_ids, spec_span(g.function.symbol), id, name);
        lemma_map_get_insert(value.given_functions, id, lambda, id);
    }
}

/// Whether `d` holds every signature and every function that `e` holds.
pub open spec fn depends_on_all(d: LambdaDependencies, e: LambdaDependencies) -> bool {
    forall|j: u64|
        (set_contains(e.signatures, j) ==> set_contains(d.signatures, j)) && (map_contains(e.functions, j) ==> map_contains(
            d.functions,
            j,
        ))
}

/// Law: a conjured function depends on at least what the lambda of its
/// signature depends on.
pub proof fn lemma_conjured_function_depends_on_its_signature(
    source: &Source,
    ids: Seq<u64>,
    ev: Evaluation,
    value: KnownSignatureValue,
    c: ConjureFunction,
)
    ensures
        ({
            let (_, r) = spec_conjure_function(source, ids, ev, value, c);
            r matches Ok(v) ==> map_get(v.conjured_functions, ids[ev.next_id]) matches Some(conjuration) && exists|
                signature: SignatureLambda,
            |
                #![trigger depends_on_all(conjuration.dependencies, signature.dependencies)]
                conjuration.signature == signature.signature && depends_on_all(conjuration.dependencies, signature.dependencies)
        }),
{
    let id = ids[ev.next_id];
    let ev1 = Evaluation { next_id: ev.next_id + 1, ..ev };
    let (ev2, r2) = spec_conjure_dependencies(source, ev1, LambdaDependencies::empty(), c.dependencies);
    if let Ok(dependencies) = r2 {
        let (_, r3) = spec_lookup_signature(source, ev2, c.signature);
        if let Ok((_, signature)) = r3 {
            if let Ok(all) = dependencies.spec_add(signature.dependencies) {
                let conjuration = FunctionConjuration { signature: signature.signature, dependencies: all };
                lemma_map_get_insert(value.conjured_functions, id, conjuration, id);
                assert forall|j: u64|
                    (set_contains(signature.dependencies.signatures, j) ==> set_contains(all.signatures, j)) && (map_contains(
                        signature.dependencies.functions,
                        j,
                    ) ==> map_contains(all.functions, j)) by {
                    lemma_add_is_union(dependencies, signature.dependencies, j);
                }
                assert(depends_on_all(all, signature.dependencies));
            }
        }
    }
}

} // verus!
