//! What the checker reports when the statements do not fit together.
use vstd::prelude::*;
use crate::check::value::{
    FunctionValue, KnownFunctionValue, KnownSignatureValue, SignatureName, SignatureValue, Span,
    UnknownFunctionValue, UnknownSignatureValue,
};
use crate::error::LabelColor;

verus! {

/// The name under which a signature is looked up in another context.
#[derive(Clone, Copy, Debug, PartialEq, Eq, Structural)]
pub struct ForeignSignatureName {
    /// Whether the name was written after `as`.
    pub explicit: bool,
    pub signature: SignatureName,
}

/// The name under which a function is looked up in another context.
#[derive(Clone, Copy, Debug, PartialEq, Eq, Structural)]
pub struct ForeignFunctionName {
    /// Whether the name was written after `as`.
    pub explicit: bool,
    pub function: Span,
}

/// Facts that the checker relies on of the values it builds, found false.
#[derive(Clone, Copy, Debug, PartialEq, Eq, Structural)]
pub enum InternalError {
    /// One taken function is constrained by two different signatures.
    ConflictingDependencySignature,
    /// An identifier has no lambda in any enclosing context.
    MissingLambda,
    /// A name that a value's resolver should know is missing.
    MissingName,
    /// A value that a map should hold under an identifier is missing.
    MissingValue,
    /// The dependencies of a conjuration do not match the values given for them.
    DependencyMismatch,
    /// Substitution went deeper than the evaluation allows.
    TooDeep,
}

pub enum CheckError {
    CannotResolveSignature { signature: SignatureName },
    CannotResolveFunction { function: Span },
    CannotGiveSignatureToUnknownSignature { statement: Span, source: SignatureName, source_value: UnknownSignatureValue },
    CannotGiveFunctionToUnknownSignature { statement: Span, source: SignatureName, source_value: UnknownSignatureValue },
    CannotGiveSignatureToUnknownFunction { statement: Span, source: Span, source_value: UnknownFunctionValue },
    CannotGiveFunctionToUnknownFunction { statement: Span, source: Span, source_value: UnknownFunctionValue },
    CannotTakeSignatureFromUnknownFunction { statement: Span, source: Span, source_value: UnknownFunctionValue },
    CannotTakeFunctionFromUnknownFunction { statement: Span, source: Span, source_value: UnknownFunctionValue },
    CannotResolveGivenSignature {
        statement: Span,
        source: Span,
        source_value: KnownFunctionValue,
        foreign: ForeignSignatureName,
    },
    CannotResolveGivenFunction { statement: Span, source: Span, source_value: KnownFunctionValue, foreign: ForeignFunctionName },
    CannotResolveTakenSignatureOfSignature {
        statement: Span,
        source: SignatureName,
        source_value: KnownSignatureValue,
        foreign: ForeignSignatureName,
    },
    CannotResolveTakenFunctionOfSignature {
        statement: Span,
        source: SignatureName,
        source_value: KnownSignatureValue,
        foreign: ForeignFunctionName,
    },
    CannotResolveTakenSignatureOfFunction {
        statement: Span,
        source: Span,
        source_value: KnownFunctionValue,
        foreign: ForeignSignatureName,
    },
    CannotResolveTakenFunctionOfFunction {
        statement: Span,
        source: Span,
        source_value: KnownFunctionValue,
        foreign: ForeignFunctionName,
    },
    TakenSignatureDependenciesNotProvided {
        statement: Span,
        source: Span,
        source_value: KnownFunctionValue,
        foreign: ForeignSignatureName,
    },
    TakenFunctionDependenciesNotProvided {
        statement: Span,
        source: Span,
        source_value: KnownFunctionValue,
        foreign: ForeignFunctionName,
    },
    FunctionGivenToSignatureDoesNotHaveExpectedSignature {
        statement: Span,
        function: Span,
        function_value: FunctionValue,
        foreign: ForeignFunctionName,
        source: SignatureName,
        source_value: KnownSignatureValue,
        expected_signature_value: SignatureValue,
    },
    FunctionGivenToFunctionDoesNotHaveExpectedSignature {
        statement: Span,
        function: Span,
        function_value: FunctionValue,
        foreign: ForeignFunctionName,
        source: Span,
        source_value: KnownFunctionValue,
        expected_signature_value: SignatureValue,
    },
    CannotGiveSignatureTwice { signature: SignatureName, statement: Span },
    CannotGiveTwoSignaturesWithIdenticalName { signature: SignatureName, statement: Span },
    CannotGiveFunctionTwice { function: Span, statement: Span },
    CannotGiveTwoFunctionsWithIdenticalName { function: Span, statement: Span },
    CannotConjureTwoSignaturesWithIdenticalName { signature: SignatureName, statement: Span },
    RepeatedSignatureDependencyInConjure { statement: Span, signature: SignatureName },
    RepeatedFunctionDependencyInConjure { statement: Span, function: Span },
    CannotConjureTwoFunctionsWithIdenticalName { function: Span, statement: Span },
    CannotTakeTwoSignaturesWithIdenticalName {
        signature: SignatureName,
        statement: Span,
        other_signature: SignatureName,
        other_statement: Span,
    },
    CannotTakeTwoFunctionsWithIdenticalName { function: Span, statement: Span, other_function: Span, other_statement: Span },
    /// A fact that the checker relies on of its own values was false.
    Internal { error: InternalError },
}

/// The outcome of a check.
pub type CheckResult<T> = Result<T, CheckError>;

pub open spec fn internal<T>(error: InternalError) -> CheckResult<T> {
    Err(CheckError::Internal { error })
}

impl CheckError {
    /// The name of the error, as the report of an error without a report of
    /// its own shows it.
    pub fn name(&self) -> (n: &'static str)
        ensures
            self is CannotResolveSignature ==> n@ == "CheckError::CannotResolveSignature"@,
            self is CannotResolveFunction ==> n@ == "CheckError::CannotResolveFunction"@,
            self is CannotGiveSignatureToUnknownSignature ==> n@ == "CheckError::CannotGiveSignatureToUnknownSignature"@,
            self is CannotGiveFunctionToUnknownSignature ==> n@ == "CheckError::CannotGiveFunctionToUnknownSignature"@,
            self is CannotGiveSignatureToUnknownFunction ==> n@ == "CheckError::CannotGiveSignatureToUnknownFunction"@,
            self is CannotGiveFunctionToUnknownFunction ==> n@ == "CheckError::CannotGiveFunctionToUnknownFunction"@,
            self is CannotTakeSignatureFromUnknownFunction ==> n@ == "CheckError::CannotTakeSignatureFromUnknownFunction"@,
            self is CannotTakeFunctionFromUnknownFunction ==> n@ == "CheckError::CannotTakeFunctionFromUnknownFunction"@,
            self is CannotResolveGivenSignature ==> n@ == "CheckError::CannotResolveGivenSignature"@,
            self is CannotResolveGivenFunction ==> n@ == "CheckError::CannotResolveGivenFunction"@,
            self is CannotResolveTakenSignatureOfSignature ==> n@ == "CheckError::CannotResolveTakenSignatureOfSignature"@,
            self is CannotResolveTakenFunctionOfSignature ==> n@ == "CheckError::CannotResolveTakenFunctionOfSignature"@,
            self is CannotResolveTakenSignatureOfFunction ==> n@ == "CheckError::CannotResolveTakenSignatureOfFunction"@,
            self is CannotResolveTakenFunctionOfFunction ==> n@ == "CheckError::CannotResolveTakenFunctionOfFunction"@,
            self is TakenSignatureDependenciesNotProvided ==> n@ == "CheckError::TakenSignatureDependenciesNotProvided"@,
            self is TakenFunctionDependenciesNotProvided ==> n@ == "CheckError::TakenFunctionDependenciesNotProvided"@,
            self is FunctionGivenToSignatureDoesNotHaveExpectedSignature ==> n@ == "CheckError::FunctionGivenToSignatureDoesNotHaveExpectedSignature"@,
            self is FunctionGivenToFunctionDoesNotHaveExpectedSignature ==> n@ == "CheckError::FunctionGivenToFunctionDoesNotHaveExpectedSignature"@,
            self is CannotGiveSignatureTwice ==> n@ == "CheckError::CannotGiveSignatureTwice"@,
            self is CannotGiveTwoSignaturesWithIdenticalName ==> n@ == "CheckError::CannotGiveTwoSignaturesWithIdenticalName"@,
            self is CannotGiveFunctionTwice ==> n@ == "CheckError::CannotGiveFunctionTwice"@,
            self is CannotGiveTwoFunctionsWithIdenticalName ==> n@ == "CheckError::CannotGiveTwoFunctionsWithIdenticalName"@,
            self is CannotConjureTwoSignaturesWithIdenticalName ==> n@ == "CheckError::CannotConjureTwoSignaturesWithIdenticalName"@,
            self is RepeatedSignatureDependencyInConjure ==> n@ == "CheckError::RepeatedSignatureDependencyInConjure"@,
            self is RepeatedFunctionDependencyInConjure ==> n@ == "CheckError::RepeatedFunctionDependencyInConjure"@,
            self is CannotConjureTwoFunctionsWithIdenticalName ==> n@ == "CheckError::CannotConjureTwoFunctionsWithIdenticalName"@,
            self is CannotTakeTwoSignaturesWithIdenticalName ==> n@ == "CheckError::CannotTakeTwoSignaturesWithIdenticalName"@,
            self is CannotTakeTwoFunctionsWithIdenticalName ==> n@ == "CheckError::CannotTakeTwoFunctionsWithIdenticalName"@,
            self is Internal ==> n@ == "CheckError::Internal"@,
    {
        match self {
            CheckError::CannotResolveSignature { .. } => "CheckError::CannotResolveSignature",
            CheckError::CannotResolveFunction { .. } => "CheckError::CannotResolveFunction",
            CheckError::CannotGiveSignatureToUnknownSignature { .. } => "CheckError::CannotGiveSignatureToUnknownSignature",
            CheckError::CannotGiveFunctionToUnknownSignature { .. } => "CheckError::CannotGiveFunctionToUnknownSignature",
            CheckError::CannotGiveSignatureToUnknownFunction { .. } => "CheckError::CannotGiveSignatureToUnknownFunction",
            CheckError::CannotGiveFunctionToUnknownFunction { .. } => "CheckError::CannotGiveFunctionToUnknownFunction",
            CheckError::CannotTakeSignatureFromUnknownFunction { .. } => "CheckError::CannotTakeSignatureFromUnknownFunction",
            CheckError::CannotTakeFunctionFromUnknownFunction { .. } => "CheckError::CannotTakeFunctionFromUnknownFunction",
            CheckError::CannotResolveGivenSignature { .. } => "CheckError::CannotResolveGivenSignature",
            CheckError::CannotResolveGivenFunction { .. } => "CheckError::CannotResolveGivenFunction",
            CheckError::CannotResolveTakenSignatureOfSignature { .. } => "CheckError::CannotResolveTakenSignatureOfSignature",
            CheckError::CannotResolveTakenFunctionOfSignature { .. } => "CheckError::CannotResolveTakenFunctionOfSignature",
            CheckError::CannotResolveTakenSignatureOfFunction { .. } => "CheckError::CannotResolveTakenSignatureOfFunction",
            CheckError::CannotResolveTakenFunctionOfFunction { .. } => "CheckError::CannotResolveTakenFunctionOfFunction",
            CheckError::TakenSignatureDependenciesNotProvided { .. } => "CheckError::TakenSignatureDependenciesNotProvided",
            CheckError::TakenFunctionDependenciesNotProvided { .. } => "CheckError::TakenFunctionDependenciesNotProvided",
            CheckError::FunctionGivenToSignatureDoesNotHaveExpectedSignature { .. } => "CheckError::FunctionGivenToSignatureDoesNotHaveExpectedSignature",
            CheckError::FunctionGivenToFunctionDoesNotHaveExpectedSignature { .. } => "CheckError::FunctionGivenToFunctionDoesNotHaveExpectedSignature",
            CheckError::CannotGiveSignatureTwice { .. } => "CheckError::CannotGiveSignatureTwice",
            CheckError::CannotGiveTwoSignaturesWithIdenticalName { .. } => "CheckError::CannotGiveTwoSignaturesWithIdenticalName",
            CheckError::CannotGiveFunctionTwice { .. } => "CheckError::CannotGiveFunctionTwice",
            CheckError::CannotGiveTwoFunctionsWithIdenticalName { .. } => "CheckError::CannotGiveTwoFunctionsWithIdenticalName",
            CheckError::CannotConjureTwoSignaturesWithIdenticalName { .. } => "CheckError::CannotConjureTwoSignaturesWithIdenticalName",
            CheckError::RepeatedSignatureDependencyInConjure { .. } => "CheckError::RepeatedSignatureDependencyInConjure",
            CheckError::RepeatedFunctionDependencyInConjure { .. } => "CheckError::RepeatedFunctionDependencyInConjure",
            CheckError::CannotConjureTwoFunctionsWithIdenticalName { .. } => "CheckError::CannotConjureTwoFunctionsWithIdenticalName",
            CheckError::CannotTakeTwoSignaturesWithIdenticalName { .. } => "CheckError::CannotTakeTwoSignaturesWithIdenticalName",
            CheckError::CannotTakeTwoFunctionsWithIdenticalName { .. } => "CheckError::CannotTakeTwoFunctionsWithIdenticalName",
            CheckError::Internal { .. } => "CheckError::Internal",
        }
    }
}

/// A label of a check report: a place in the text, what is said of it, and
/// its colour.
#[derive(Debug, Clone, Copy)]
pub struct CheckLabel {
    pub span: Span,
    pub message: &'static str,
    pub color: LabelColor,
}

impl CheckError {
    /// For the errors reported at their places, the place the report is
    /// anchored at and its labels, in order; `None` for the others, which
    /// are reported by name.
    pub fn report_labels(&self) -> (r: Option<(Span, Vec<CheckLabel>)>)
        ensures
            match *self {
                CheckError::CannotResolveSignature { signature } => r matches Some((anchor, labels)) && {
                    &&& anchor == signature.with_parens
                    &&& labels@.len() == 1
                    &&& labels@[0].span == signature.with_parens
                    &&& labels@[0].message@ == "here"@
                    &&& labels@[0].color == LabelColor::Cyan
                },
                CheckError::CannotResolveFunction { function } => r matches Some((anchor, labels)) && {
                    &&& anchor == function
                    &&& labels@.len() == 1
                    &&& labels@[0].span == function
                    &&& labels@[0].message@ == "here"@
                    &&& labels@[0].color == LabelColor::Cyan
                },
                CheckError::FunctionGivenToFunctionDoesNotHaveExpectedSignature { statement, function, source, .. } => r matches Some(
                    (anchor, labels),
                ) && {
                    &&& anchor == statement
                    &&& labels@.len() == 2
                    &&& labels@[0].span == function
                    &&& labels@[0].message@ == "this function..."@
                    &&& labels@[0].color == LabelColor::Cyan
                    &&& labels@[1].span == source
                    &&& labels@[1].message@ == "... is given to this function, but it does not have the expected signature"@
                    &&& labels@[1].color == LabelColor::Cyan
                },
                _ => r is None,
            },
    {
        match self {
            CheckError::CannotResolveSignature { signature } => {
                let mut labels: Vec<CheckLabel> = Vec::new();
                labels.push(CheckLabel { span: signature.with_parens, message: "here", color: LabelColor::Cyan });
                Some((signature.with_parens, labels))
            },
            CheckError::CannotResolveFunction { function } => {
                let mut labels: Vec<CheckLabel> = Vec::new();
                labels.push(CheckLabel { span: *function, message: "here", color: LabelColor::Cyan });
                Some((*function, labels))
            },
            CheckError::FunctionGivenToFunctionDoesNotHaveExpectedSignature { statement, function, source, .. } => {
                let mut labels: Vec<CheckLabel> = Vec::new();
                labels.push(CheckLabel { span: *function, message: "this function...", color: LabelColor::Cyan });
                labels.push(CheckLabel {
                    span: *source,
                    message: "... is given to this function, but it does not have the expected signature",
                    color: LabelColor::Cyan,
                });
                Some((*statement, labels))
            },
            _ => None,
        }
    }
}

} // verus!
