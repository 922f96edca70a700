//! The text validators and the dispatch that picks one for a schema.
use crate::errors::{
    result_view, BuildError, BuildErrorKind, ContextView, ErrorContext, ErrorKind, ValError,
    ValErrorView,
};
use crate::pattern::{pattern_matches, RegexPattern};
use crate::schema::{
    build_failure, flag_of, flag_ok, has_constraint_keys, length_of, length_ok, pattern_of,
    Schema, SchemaKey, SchemaValue,
};
use crate::text::{char_count, lower_of, text_equals, to_lower_text, to_upper_text, trim_text, trimmed, upper_of};
use vstd::prelude::*;

verus! {

/// The constraints a text validator enforces: its model.
pub struct StrConstraints {
    pub pattern: Option<Seq<char>>,
    pub min_length: Option<usize>,
    pub max_length: Option<usize>,
    pub strip_whitespace: bool,
    pub to_lower: bool,
    pub to_upper: bool,
}

/// No constraint at all.
pub open spec fn unconstrained() -> StrConstraints {
    StrConstraints {
        pattern: None,
        min_length: None,
        max_length: None,
        strip_whitespace: false,
        to_lower: false,
        to_upper: false,
    }
}

/// The constraints that a well-formed schema gives.
pub open spec fn schema_constraints(s: Schema) -> StrConstraints {
    StrConstraints {
        pattern: pattern_of(s.pattern),
        min_length: length_of(s.min_length),
        max_length: length_of(s.max_length),
        strip_whitespace: flag_of(s.strip_whitespace),
        to_lower: flag_of(s.to_lower),
        to_upper: flag_of(s.to_upper),
    }
}

/// The first check that `s` fails, in the order minimum length, maximum
/// length, pattern. Lengths count characters.
pub open spec fn check_failure(c: StrConstraints, s: Seq<char>) -> Option<ErrorKind> {
    if c.min_length is Some && s.len() < c.min_length->0 {
        Some(ErrorKind::StrTooShort)
    } else if c.max_length is Some && s.len() > c.max_length->0 {
        Some(ErrorKind::StrTooLong)
    } else if c.pattern is Some && !pattern_matches(c.pattern->0, s) {
        Some(ErrorKind::StrPatternMismatch)
    } else {
        None
    }
}

/// The parameter reported with a failure of class `kind`.
pub open spec fn failure_context(c: StrConstraints, kind: ErrorKind) -> ContextView {
    match kind {
        ErrorKind::StrTooShort => ContextView::MinLength(c.min_length->0),
        ErrorKind::StrTooLong => ContextView::MaxLength(c.max_length->0),
        ErrorKind::StrPatternMismatch => ContextView::Pattern(c.pattern->0),
        ErrorKind::WrongType => ContextView::Empty,
    }
}

/// `s` after the optional trim, then lowercasing or else uppercasing.
pub open spec fn transformed(c: StrConstraints, s: Seq<char>) -> Seq<char> {
    let t = if c.strip_whitespace {
        trimmed(s)
    } else {
        s
    };
    if c.to_lower {
        lower_of(t)
    } else if c.to_upper {
        upper_of(t)
    } else {
        t
    }
}

/// What validating the text `s` under `c` gives.
pub open spec fn outcome(c: StrConstraints, s: Seq<char>) -> Result<Seq<char>, ValErrorView> {
    match check_failure(c, s) {
        None => Ok(transformed(c, s)),
        Some(kind) => Err(ValErrorView { kind, context: failure_context(c, kind), input_value: s }),
    }
}

/// Whether a declared type is text.
pub open spec fn is_text_type(type_: Seq<char>) -> bool {
    type_ == "str"@
}

/// The kinds of text validator, narrowest first.
#[derive(Debug, Clone, Copy, PartialEq, Eq, Structural)]
pub enum ValidatorKind {
    Simple,
    Full,
}

/// The kind that dispatch selects for a declared type and a schema: the first
/// candidate, narrowest first, that accepts them.
pub open spec fn selected_kind(type_: Seq<char>, schema: Schema) -> Option<ValidatorKind> {
    if is_text_type(type_) && !has_constraint_keys(schema) {
        Some(ValidatorKind::Simple)
    } else if is_text_type(type_) {
        Some(ValidatorKind::Full)
    } else {
        None
    }
}

/// The fast path: reads the value as text and checks nothing.
#[derive(Debug, Clone, Copy, PartialEq, Eq, Structural)]
pub struct SimpleStrValidator;

impl View for SimpleStrValidator {
    type V = StrConstraints;

    open spec fn view(&self) -> StrConstraints {
        unconstrained()
    }
}

impl SimpleStrValidator {
    /// Accepts the text type when the schema holds no recognized constraint key.
    pub fn is_match(type_: &str, schema: &Schema) -> (r: bool)
        ensures
            r == (is_text_type(type_@) && !has_constraint_keys(*schema)),
    {
        proof {
            reveal_strlit("str");
        }
        text_equals(type_, "str") && !schema.has_constraints()
    }

    /// Builds the validator; there is nothing to read.
    pub fn build(_schema: &Schema) -> (r: Result<SimpleStrValidator, BuildError>)
        ensures
            r is Ok,
    {
        Ok(SimpleStrValidator)
    }

    /// Returns the text unchanged.
    pub fn validate(&self, input: &str) -> (r: Result<String, ValError>)
        ensures
            result_view(r) == outcome(self@, input@),
            r is Ok,
    {
        Ok(input.to_owned())
    }

    /// An independent copy.
    pub fn clone_dyn(&self) -> (r: StrValidator)
        ensures
            r@ == self@,
            r.kind() == ValidatorKind::Simple,
    {
        StrValidator::Simple(SimpleStrValidator)
    }
}

/// Enforces length bounds and a pattern, then trims and changes case.
pub struct FullStrValidator {
    pattern: Option<RegexPattern>,
    max_length: Option<usize>,
    min_length: Option<usize>,
    strip_whitespace: bool,
    to_lower: bool,
    to_upper: bool,
}

impl View for FullStrValidator {
    type V = StrConstraints;

    closed spec fn view(&self) -> StrConstraints {
        StrConstraints {
            pattern: match self.pattern {
                Some(p) => Some(p.source_view()),
                None => None,
            },
            min_length: self.min_length,
            max_length: self.max_length,
            strip_whitespace: self.strip_whitespace,
            to_lower: self.to_lower,
            to_upper: self.to_upper,
        }
    }
}

/// Reads a length bound; `None` when the value is not a valid `usize`.
fn read_length(v: &Option<SchemaValue>) -> (r: Option<Option<usize>>)
    ensures
        r is Some <==> length_ok(*v),
        r matches Some(l) ==> l == length_of(*v),
{
    match v {
        None => Some(None),
        Some(SchemaValue::Int(n)) => {
            if 0 <= *n && *n <= usize::MAX as i128 {
                Some(Some(*n as usize))
            } else {
                None
            }
        },
        Some(_) => None,
    }
}

/// Reads a flag; `None` when the value is not a boolean.
fn read_flag(v: &Option<SchemaValue>) -> (r: Option<bool>)
    ensures
        r is Some <==> flag_ok(*v),
        r matches Some(b) ==> b == flag_of(*v),
{
    match v {
        None => Some(false),
        Some(SchemaValue::Bool(b)) => Some(*b),
        Some(_) => None,
    }
}

fn wrong_shape(key: SchemaKey) -> (r: BuildError)
    ensures
        r == (BuildError { key, kind: BuildErrorKind::WrongShape }),
{
    BuildError { key, kind: BuildErrorKind::WrongShape }
}

impl FullStrValidator {
    /// Accepts the text type, whatever the schema holds.
    pub fn is_match(type_: &str, _schema: &Schema) -> (r: bool)
        ensures
            r == is_text_type(type_@),
    {
        proof {
            reveal_strlit("str");
        }
        text_equals(type_, "str")
    }

    /// Reads the constraints, compiling the pattern; fails on the first
    /// malformed constraint.
    pub fn build(schema: &Schema) -> (r: Result<FullStrValidator, BuildError>)
        ensures
            match r {
                Ok(v) => build_failure(*schema) is None && v@ == schema_constraints(*schema),
                Err(e) => build_failure(*schema) == Some(e),
            },
    {
        let pattern = match &schema.pattern {
            None => None,
            Some(SchemaValue::Str(p)) => match RegexPattern::new(p.as_str()) {
                Some(rp) => Some(rp),
                None => {
                    return Err(
                        BuildError { key: SchemaKey::Pattern, kind: BuildErrorKind::PatternSyntax },
                    );
                },
            },
            Some(_) => {
                return Err(wrong_shape(SchemaKey::Pattern));
            },
        };
        let min_length = match read_length(&schema.min_length) {
            Some(l) => l,
            None => {
                return Err(wrong_shape(SchemaKey::MinLength));
            },
        };
        let max_length = match read_length(&schema.max_length) {
            Some(l) => l,
            None => {
                return Err(wrong_shape(SchemaKey::MaxLength));
            },
        };
        let strip_whitespace = match read_flag(&schema.strip_whitespace) {
            Some(b) => b,
            None => {
                return Err(wrong_shape(SchemaKey::StripWhitespace));
            },
        };
        let to_lower = match read_flag(&schema.to_lower) {
            Some(b) => b,
            None => {
                return Err(wrong_shape(SchemaKey::ToLower));
            },
        };
        let to_upper = match read_flag(&schema.to_upper) {
            Some(b) => b,
            None => {
                return Err(wrong_shape(SchemaKey::ToUpper));
            },
        };
        Ok(FullStrValidator { pattern, max_length, min_length, strip_whitespace, to_lower, to_upper })
    }

    /// Checks the text against the length bounds and the pattern, in that
    /// order, stopping at the first failure; then trims and changes case.
    pub fn validate(&self, input: &str) -> (r: Result<String, ValError>)
        ensures
            result_view(r) == outcome(self@, input@),
    {
        let len = char_count(input);
        if let Some(min_length) = self.min_length {
            if len < min_length {
                return Err(
                    ValError {
                        kind: ErrorKind::StrTooShort,
                        context: ErrorContext::MinLength(min_length),
                        input_value: input.to_owned(),
                    },
                );
            }
        }
        if let Some(max_length) = self.max_length {
            if len > max_length {
                return Err(
                    ValError {
                        kind: ErrorKind::StrTooLong,
                        context: ErrorContext::MaxLength(max_length),
                        input_value: input.to_owned(),
                    },
                );
            }
        }
        if let Some(pattern) = &self.pattern {
            if !pattern.is_match(input) {
                return Err(
                    ValError {
                        kind: ErrorKind::StrPatternMismatch,
                        context: ErrorContext::Pattern(pattern.as_str().to_owned()),
                        input_value: input.to_owned(),
                    },
                );
            }
        }
        let mut s: String = input.to_owned();
        if self.strip_whitespace {
            s = trim_text(s.as_str()).to_owned();
        }
        if self.to_lower {
            s = to_lower_text(s.as_str());
        } else if self.to_upper {
            s = to_upper_text(s.as_str());
        }
        Ok(s)
    }

    /// An independent copy with the same constraints.
    pub fn clone_dyn(&self) -> (r: StrValidator)
        ensures
            r@ == self@,
            r.kind() == ValidatorKind::Full,
    {
        let pattern = match &self.pattern {
            Some(p) => Some(p.duplicate()),
            None => None,
        };
        StrValidator::Full(
            FullStrValidator {
                pattern,
                max_length: self.max_length,
                min_length: self.min_length,
                strip_whitespace: self.strip_whitespace,
                to_lower: self.to_lower,
                to_upper: self.to_upper,
            },
        )
    }
}

/// A built text validator of either kind.
pub enum StrValidator {
    Simple(SimpleStrValidator),
    Full(FullStrValidator),
}

impl View for StrValidator {
    type V = StrConstraints;

    open spec fn view(&self) -> StrConstraints {
        match self {
            StrValidator::Simple(v) => v@,
            StrValidator::Full(v) => v@,
        }
    }
}

impl StrValidator {
    /// The kind of this validator.
    pub open spec fn kind(&self) -> ValidatorKind {
        match self {
            StrValidator::Simple(_) => ValidatorKind::Simple,
            StrValidator::Full(_) => ValidatorKind::Full,
        }
    }

    /// Offers the declared type and schema to each kind, narrowest first, and
    /// builds the first kind that accepts them; `None` when no kind does.
    pub fn build(type_: &str, schema: &Schema) -> (r: Option<Result<StrValidator, BuildError>>)
        ensures
            r is None <==> selected_kind(type_@, *schema) is None,
            selected_kind(type_@, *schema) == Some(ValidatorKind::Simple) ==> (r matches Some(
                Ok(v),
            ) && v.kind() == ValidatorKind::Simple),
            selected_kind(type_@, *schema) == Some(ValidatorKind::Full) ==> match r {
                Some(Ok(v)) => v.kind() == ValidatorKind::Full && build_failure(*schema) is None
                    && v@ == schema_constraints(*schema),
                Some(Err(e)) => build_failure(*schema) == Some(e),
                None => false,
            },
    {
        if SimpleStrValidator::is_match(type_, schema) {
            match SimpleStrValidator::build(schema) {
                Ok(v) => Some(Ok(StrValidator::Simple(v))),
                Err(e) => Some(Err(e)),
            }
        } else if FullStrValidator::is_match(type_, schema) {
            match FullStrValidator::build(schema) {
                Ok(v) => Some(Ok(StrValidator::Full(v))),
                Err(e) => Some(Err(e)),
            }
        } else {
            None
        }
    }

    /// Validates one text value with the validator's own rules.
    pub fn validate(&self, input: &str) -> (r: Result<String, ValError>)
        ensures
            result_view(r) == outcome(self@, input@),
    {
        match self {
            StrValidator::Simple(v) => v.validate(input),
            StrValidator::Full(v) => v.validate(input),
        }
    }

    /// An independent copy that behaves as this one does.
    pub fn duplicate(&self) -> (r: StrValidator)
        ensures
            r@ == self@,
            r.kind() == self.kind(),
    {
        match self {
            StrValidator::Simple(v) => v.clone_dyn(),
            StrValidator::Full(v) => v.clone_dyn(),
        }
    }
}

} // verus!
