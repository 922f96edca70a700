//! Errors raised while building a validator or validating a value.
use crate::schema::SchemaKey;
use vstd::prelude::*;

verus! {

/// Why a schema could not be turned into a validator.
#[derive(Debug, Clone, Copy, PartialEq, Eq, Structural)]
pub enum BuildErrorKind {
    /// The constraint's value has the wrong type or range.
    WrongShape,
    /// The pattern text is not valid pattern syntax.
    PatternSyntax,
}

/// A fatal schema error, naming the constraint that caused it.
#[derive(Debug, Clone, Copy, PartialEq, Eq, Structural)]
pub struct BuildError {
    pub key: SchemaKey,
    pub kind: BuildErrorKind,
}

/// The class of a failed validation.
#[derive(Debug, Clone, Copy, PartialEq, Eq, Structural)]
pub enum ErrorKind {
    /// The input could not be read as text.
    WrongType,
    /// The text has fewer characters than `min_length`.
    StrTooShort,
    /// The text has more characters than `max_length`.
    StrTooLong,
    /// The text does not match `pattern`.
    StrPatternMismatch,
}

/// The constraint parameter that a failed validation reports.
#[derive(Debug, Clone, PartialEq, Eq)]
pub enum ErrorContext {
    Empty,
    MinLength(usize),
    MaxLength(usize),
    /// The pattern text as the schema gave it.
    Pattern(String),
}

/// The model of an `ErrorContext`.
pub enum ContextView {
    Empty,
    MinLength(usize),
    MaxLength(usize),
    Pattern(Seq<char>),
}

impl View for ErrorContext {
    type V = ContextView;

    open spec fn view(&self) -> ContextView {
        match self {
            ErrorContext::Empty => ContextView::Empty,
            ErrorContext::MinLength(n) => ContextView::MinLength(*n),
            ErrorContext::MaxLength(n) => ContextView::MaxLength(*n),
            ErrorContext::Pattern(p) => ContextView::Pattern(p@),
        }
    }
}

/// A failed validation: its class, the parameter it reports, and the
/// offending input.
#[derive(Debug, Clone, PartialEq, Eq)]
pub struct ValError {
    pub kind: ErrorKind,
    pub context: ErrorContext,
    pub input_value: String,
}

/// The model of a `ValError`.
pub struct ValErrorView {
    pub kind: ErrorKind,
    pub context: ContextView,
    pub input_value: Seq<char>,
}

impl View for ValError {
    type V = ValErrorView;

    open spec fn view(&self) -> ValErrorView {
        ValErrorView { kind: self.kind, context: self.context@, input_value: self.input_value@ }
    }
}

/// The model of a validation result.
pub open spec fn result_view(r: Result<String, ValError>) -> Result<Seq<char>, ValErrorView> {
    match r {
        Ok(s) => Ok(s@),
        Err(e) => Err(e@),
    }
}

impl ValError {
    /// The error for an input that cannot be read as text; `input_repr` is how
    /// the caller shows that input.
    pub fn wrong_type(input_repr: &str) -> (r: ValError)
        ensures
            r.kind == ErrorKind::WrongType,
            r.context@ == ContextView::Empty,
            r.input_value@ == input_repr@,
    {
        ValError { kind: ErrorKind::WrongType, context: ErrorContext::Empty, input_value: input_repr.to_owned() }
    }
}

} // verus!
