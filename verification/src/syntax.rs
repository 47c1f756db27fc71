//! The syntax tree that the parser builds.
use vstd::prelude::*;
use crate::location::SourceLocation;

verus! {

/// A finite list, built front to back.
#[derive(Debug)]
pub enum List<T> {
    Nil,
    Cons(Box<T>, Box<List<T>>),
}

impl<T> List<T> {
    /// The elements of the list, in order.
    pub open spec fn seq(self) -> Seq<T>
        decreases self,
    {
        match self {
            List::Nil => Seq::empty(),
            List::Cons(head, tail) => seq![*head].add(tail.seq()),
        }
    }

    pub fn is_empty(&self) -> (b: bool)
        ensures
            b == (self.seq().len() == 0),
    {
        match self {
            List::Nil => true,
            List::Cons(..) => false,
        }
    }
}

/// A signature as written: its name in parentheses.
#[derive(Debug, Clone, Copy)]
pub struct Signature<'s> {
    pub with_parens: SourceLocation<'s>,
    pub symbol: SourceLocation<'s>,
}

/// A function as written: its name.
#[derive(Debug, Clone, Copy)]
pub struct Function<'s> {
    pub symbol: SourceLocation<'s>,
}

/// The name under which a signature is looked up in another context: the one
/// written after `as`, or the signature's own.
#[derive(Debug, Clone, Copy)]
pub enum ForeignSignature<'s> {
    Explicit(Signature<'s>),
    Implicit(Signature<'s>),
}

/// The name under which a function is looked up in another context.
#[derive(Debug, Clone, Copy)]
pub enum ForeignFunction<'s> {
    Explicit(Function<'s>),
    Implicit(Function<'s>),
}

#[derive(Debug, Clone, Copy)]
pub enum ConjureDependency<'s> {
    Signature(Signature<'s>),
    Function(Function<'s>),
}

/// The dependencies after `using`.
pub type ConjureDependencies<'s> = List<ConjureDependency<'s>>;

#[derive(Debug)]
pub struct TakeSignature {}

#[derive(Debug)]
pub struct DefineSignature<'s> {
    pub context: SignatureContext<'s>,
}

#[derive(Debug)]
pub struct TakeSignatureFrom<'s> {
    pub foreign: ForeignSignature<'s>,
    pub source: Function<'s>,
}

#[derive(Debug)]
pub struct GiveSignatureToSignature<'s> {
    pub signature: Signature<'s>,
    pub foreign: ForeignSignature<'s>,
    pub source: Signature<'s>,
}

#[derive(Debug)]
pub struct GiveFunctionToSignature<'s> {
    pub function: Function<'s>,
    pub foreign: ForeignFunction<'s>,
    pub source: Signature<'s>,
}

#[derive(Debug)]
pub enum SignatureAssignmentRhs<'s> {
    Take(TakeSignature),
    Define(DefineSignature<'s>),
    TakeFrom(TakeSignatureFrom<'s>),
    GiveSignatureToSignature(GiveSignatureToSignature<'s>),
    GiveFunctionToSignature(GiveFunctionToSignature<'s>),
}

#[derive(Debug)]
pub struct SignatureAssignment<'s> {
    pub lhs: Signature<'s>,
    pub rhs: SignatureAssignmentRhs<'s>,
    pub location: SourceLocation<'s>,
}

#[derive(Debug)]
pub struct TakeFunction<'s> {
    pub signature: Signature<'s>,
}

#[derive(Debug)]
pub struct DefineFunction<'s> {
    pub context: FunctionContext<'s>,
}

#[derive(Debug)]
pub struct TakeFunctionFrom<'s> {
    pub foreign: ForeignFunction<'s>,
    pub source: Function<'s>,
}

#[derive(Debug)]
pub struct GiveSignatureToFunction<'s> {
    pub signature: Signature<'s>,
    pub foreign: ForeignSignature<'s>,
    pub source: Function<'s>,
}

#[derive(Debug)]
pub struct GiveFunctionToFunction<'s> {
    pub function: Function<'s>,
    pub foreign: ForeignFunction<'s>,
    pub source: Function<'s>,
}

#[derive(Debug)]
pub enum FunctionAssignmentRhs<'s> {
    Take(TakeFunction<'s>),
    Define(DefineFunction<'s>),
    TakeFrom(TakeFunctionFrom<'s>),
    GiveSignatureToFunction(GiveSignatureToFunction<'s>),
    GiveFunctionToFunction(GiveFunctionToFunction<'s>),
}

#[derive(Debug)]
pub struct FunctionAssignment<'s> {
    pub lhs: Function<'s>,
    pub rhs: FunctionAssignmentRhs<'s>,
    pub location: SourceLocation<'s>,
}

#[derive(Debug)]
pub struct GiveSignature<'s> {
    pub signature: Signature<'s>,
    pub location: SourceLocation<'s>,
}

#[derive(Debug)]
pub struct GiveFunction<'s> {
    pub function: Function<'s>,
    pub location: SourceLocation<'s>,
}

#[derive(Debug)]
pub struct ConjureSignature<'s> {
    pub signature: Signature<'s>,
    pub dependencies: ConjureDependencies<'s>,
    pub location: SourceLocation<'s>,
}

#[derive(Debug)]
pub struct ConjureFunction<'s> {
    pub function: Function<'s>,
    pub signature: Signature<'s>,
    pub dependencies: ConjureDependencies<'s>,
    pub location: SourceLocation<'s>,
}

#[derive(Debug)]
pub enum SignatureStatement<'s> {
    SignatureAssignment(SignatureAssignment<'s>),
    FunctionAssignment(FunctionAssignment<'s>),
    ConjureSignature(ConjureSignature<'s>),
    ConjureFunction(ConjureFunction<'s>),
}

#[derive(Debug)]
pub enum FunctionStatement<'s> {
    SignatureAssignment(SignatureAssignment<'s>),
    FunctionAssignment(FunctionAssignment<'s>),
    GiveSignature(GiveSignature<'s>),
    GiveFunction(GiveFunction<'s>),
}

/// The statements of a signature definition; `trace` is set by a `TRACE` line.
#[derive(Debug)]
pub struct SignatureContext<'s> {
    pub trace: bool,
    pub statements: List<SignatureStatement<'s>>,
}

/// The statements of a function definition; `trace` is set by a `TRACE` line.
#[derive(Debug)]
pub struct FunctionContext<'s> {
    pub trace: bool,
    pub statements: List<FunctionStatement<'s>>,
}

impl<'s> Signature<'s> {
    /// The name of the signature, without parentheses.
    pub open spec fn name(self) -> Seq<char> {
        self.symbol@
    }
}

impl<'s> Function<'s> {
    pub open spec fn name(self) -> Seq<char> {
        self.symbol@
    }
}

impl<'s> ForeignSignature<'s> {
    pub open spec fn signature(self) -> Signature<'s> {
        match self {
            ForeignSignature::Explicit(s) => s,
            ForeignSignature::Implicit(s) => s,
        }
    }

    /// The signature the name is read from.
    pub fn as_signature(self) -> (s: Signature<'s>)
        ensures
            s == self.signature(),
    {
        match self {
            ForeignSignature::Explicit(s) => s,
            ForeignSignature::Implicit(s) => s,
        }
    }
}

impl<'s> ForeignFunction<'s> {
    pub open spec fn function(self) -> Function<'s> {
        match self {
            ForeignFunction::Explicit(f) => f,
            ForeignFunction::Implicit(f) => f,
        }
    }

    pub fn as_function(self) -> (f: Function<'s>)
        ensures
            f == self.function(),
    {
        match self {
            ForeignFunction::Explicit(f) => f,
            ForeignFunction::Implicit(f) => f,
        }
    }
}

impl<'s> Signature<'s> {
    pub open spec fn wf(self) -> bool {
        self.with_parens.wf() && self.symbol.wf()
    }
}

impl<'s> Function<'s> {
    pub open spec fn wf(self) -> bool {
        self.symbol.wf()
    }
}

impl<'s> ForeignSignature<'s> {
    pub open spec fn wf(self) -> bool {
        self.signature().wf()
    }
}

impl<'s> ForeignFunction<'s> {
    pub open spec fn wf(self) -> bool {
        self.function().wf()
    }
}

impl<'s> ConjureDependency<'s> {
    pub open spec fn wf(self) -> bool {
        match self {
            ConjureDependency::Signature(s) => s.wf(),
            ConjureDependency::Function(f) => f.wf(),
        }
    }
}

/// All locations in the dependencies lie within their lines.
pub open spec fn dependencies_wf(deps: ConjureDependencies) -> bool
    decreases deps,
{
    match deps {
        List::Nil => true,
        List::Cons(d, rest) => d.wf() && dependencies_wf(*rest),
    }
}

/// All locations in the statements lie within their lines.
pub open spec fn signature_statements_wf(statements: List<SignatureStatement>) -> bool
    decreases statements,
{
    match statements {
        List::Nil => true,
        List::Cons(statement, rest) => signature_statement_wf(*statement) && signature_statements_wf(*rest),
    }
}

pub open spec fn function_statements_wf(statements: List<FunctionStatement>) -> bool
    decreases statements,
{
    match statements {
        List::Nil => true,
        List::Cons(statement, rest) => function_statement_wf(*statement) && function_statements_wf(*rest),
    }
}

pub open spec fn signature_statement_wf(statement: SignatureStatement) -> bool
    decreases statement,
{
    match statement {
        SignatureStatement::SignatureAssignment(a) => signature_assignment_wf(a),
        SignatureStatement::FunctionAssignment(a) => function_assignment_wf(a),
        SignatureStatement::ConjureSignature(c) => c.signature.wf() && dependencies_wf(c.dependencies) && c.location.wf(),
        SignatureStatement::ConjureFunction(c) => c.function.wf() && c.signature.wf() && dependencies_wf(c.dependencies)
            && c.location.wf(),
    }
}

pub open spec fn function_statement_wf(statement: FunctionStatement) -> bool
    decreases statement,
{
    match statement {
        FunctionStatement::SignatureAssignment(a) => signature_assignment_wf(a),
        FunctionStatement::FunctionAssignment(a) => function_assignment_wf(a),
        FunctionStatement::GiveSignature(g) => g.signature.wf() && g.location.wf(),
        FunctionStatement::GiveFunction(g) => g.function.wf() && g.location.wf(),
    }
}

pub open spec fn signature_assignment_wf(a: SignatureAssignment) -> bool
    decreases a,
{
    &&& a.lhs.wf()
    &&& a.location.wf()
    &&& match a.rhs {
        SignatureAssignmentRhs::Take(_) => true,
        SignatureAssignmentRhs::Define(d) => signature_statements_wf(d.context.statements),
        SignatureAssignmentRhs::TakeFrom(t) => t.foreign.wf() && t.source.wf(),
        SignatureAssignmentRhs::GiveSignatureToSignature(g) => g.signature.wf() && g.foreign.wf() && g.source.wf(),
        SignatureAssignmentRhs::GiveFunctionToSignature(g) => g.function.wf() && g.foreign.wf() && g.source.wf(),
    }
}

pub open spec fn function_assignment_wf(a: FunctionAssignment) -> bool
    decreases a,
{
    &&& a.lhs.wf()
    &&& a.location.wf()
    &&& match a.rhs {
        FunctionAssignmentRhs::Take(t) => t.signature.wf(),
        FunctionAssignmentRhs::Define(d) => function_statements_wf(d.context.statements),
        FunctionAssignmentRhs::TakeFrom(t) => t.foreign.wf() && t.source.wf(),
        FunctionAssignmentRhs::GiveSignatureToFunction(g) => g.signature.wf() && g.foreign.wf() && g.source.wf(),
        FunctionAssignmentRhs::GiveFunctionToFunction(g) => g.function.wf() && g.foreign.wf() && g.source.wf(),
    }
}

} // verus!
