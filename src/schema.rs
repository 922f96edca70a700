//! The constraints a schema gives for a text value, read from its keys.
use crate::errors::{BuildError, BuildErrorKind};
use crate::pattern::pattern_compiles;
use vstd::prelude::*;

verus! {

/// The constraint keys that text validators recognize.
#[derive(Debug, Clone, Copy, PartialEq, Eq, Structural)]
pub enum SchemaKey {
    Pattern,
    MinLength,
    MaxLength,
    StripWhitespace,
    ToLower,
    ToUpper,
}

impl SchemaKey {
    /// The key as it is spelled in a schema.
    pub fn name(&self) -> (r: &'static str)
        ensures
            *self == SchemaKey::Pattern ==> r@ == "pattern"@,
            *self == SchemaKey::MinLength ==> r@ == "min_length"@,
            *self == SchemaKey::MaxLength ==> r@ == "max_length"@,
            *self == SchemaKey::StripWhitespace ==> r@ == "strip_whitespace"@,
            *self == SchemaKey::ToLower ==> r@ == "to_lower"@,
            *self == SchemaKey::ToUpper ==> r@ == "to_upper"@,
    {
        match self {
            SchemaKey::Pattern => "pattern",
            SchemaKey::MinLength => "min_length",
            SchemaKey::MaxLength => "max_length",
            SchemaKey::StripWhitespace => "strip_whitespace",
            SchemaKey::ToLower => "to_lower",
            SchemaKey::ToUpper => "to_upper",
        }
    }
}

/// A value given for a schema key.
#[derive(Debug, Clone, PartialEq, Eq)]
pub enum SchemaValue {
    Str(String),
    Int(i128),
    Bool(bool),
    /// Any value of another type (a list, a float, null, ...).
    Other,
}

/// The recognized keys of a schema with their values; `None` where a key is
/// absent. Keys that text validators do not read are not held.
#[derive(Debug, Clone, PartialEq, Eq)]
pub struct Schema {
    pub pattern: Option<SchemaValue>,
    pub min_length: Option<SchemaValue>,
    pub max_length: Option<SchemaValue>,
    pub strip_whitespace: Option<SchemaValue>,
    pub to_lower: Option<SchemaValue>,
    pub to_upper: Option<SchemaValue>,
}

/// `s` with `key` given the value `v`, the other keys as they were.
pub open spec fn with_entry(s: Schema, key: SchemaKey, v: SchemaValue) -> Schema {
    match key {
        SchemaKey::Pattern => Schema { pattern: Some(v), ..s },
        SchemaKey::MinLength => Schema { min_length: Some(v), ..s },
        SchemaKey::MaxLength => Schema { max_length: Some(v), ..s },
        SchemaKey::StripWhitespace => Schema { strip_whitespace: Some(v), ..s },
        SchemaKey::ToLower => Schema { to_lower: Some(v), ..s },
        SchemaKey::ToUpper => Schema { to_upper: Some(v), ..s },
    }
}

/// Whether any recognized constraint key is present.
pub open spec fn has_constraint_keys(s: Schema) -> bool {
    s.pattern is Some || s.min_length is Some || s.max_length is Some || s.strip_whitespace is Some
        || s.to_lower is Some || s.to_upper is Some
}

/// A length bound: absent, or an integer that is a valid `usize`.
pub open spec fn length_ok(v: Option<SchemaValue>) -> bool {
    match v {
        None => true,
        Some(SchemaValue::Int(n)) => 0 <= n <= usize::MAX,
        Some(_) => false,
    }
}

/// The length bound given by `v`, if any.
pub open spec fn length_of(v: Option<SchemaValue>) -> Option<usize> {
    match v {
        Some(SchemaValue::Int(n)) => Some(n as usize),
        _ => None,
    }
}

/// A flag: absent, or a boolean.
pub open spec fn flag_ok(v: Option<SchemaValue>) -> bool {
    match v {
        None => true,
        Some(SchemaValue::Bool(_)) => true,
        Some(_) => false,
    }
}

/// The flag given by `v`; false where absent.
pub open spec fn flag_of(v: Option<SchemaValue>) -> bool {
    match v {
        Some(SchemaValue::Bool(b)) => b,
        _ => false,
    }
}

/// The pattern text given by `v`, if any.
pub open spec fn pattern_of(v: Option<SchemaValue>) -> Option<Seq<char>> {
    match v {
        Some(SchemaValue::Str(p)) => Some(p@),
        _ => None,
    }
}

/// What is wrong with the pattern entry `v`, if anything.
pub open spec fn pattern_problem(v: Option<SchemaValue>) -> Option<BuildErrorKind> {
    match v {
        None => None,
        Some(SchemaValue::Str(p)) => if pattern_compiles(p@) {
            None
        } else {
            Some(BuildErrorKind::PatternSyntax)
        },
        Some(_) => Some(BuildErrorKind::WrongShape),
    }
}

/// The first malformed constraint of `s`, keys taken in the order pattern,
/// min_length, max_length, strip_whitespace, to_lower, to_upper.
pub open spec fn build_failure(s: Schema) -> Option<BuildError> {
    if pattern_problem(s.pattern) is Some {
        Some(BuildError { key: SchemaKey::Pattern, kind: pattern_problem(s.pattern)->0 })
    } else if !length_ok(s.min_length) {
        Some(BuildError { key: SchemaKey::MinLength, kind: BuildErrorKind::WrongShape })
    } else if !length_ok(s.max_length) {
        Some(BuildError { key: SchemaKey::MaxLength, kind: BuildErrorKind::WrongShape })
    } else if !flag_ok(s.strip_whitespace) {
        Some(BuildError { key: SchemaKey::StripWhitespace, kind: BuildErrorKind::WrongShape })
    } else if !flag_ok(s.to_lower) {
        Some(BuildError { key: SchemaKey::ToLower, kind: BuildErrorKind::WrongShape })
    } else if !flag_ok(s.to_upper) {
        Some(BuildError { key: SchemaKey::ToUpper, kind: BuildErrorKind::WrongShape })
    } else {
        None
    }
}

impl Schema {
    /// A schema with no recognized key.
    pub fn new() -> (r: Schema)
        ensures
            !has_constraint_keys(r),
    {
        Schema {
            pattern: None,
            min_length: None,
            max_length: None,
            strip_whitespace: None,
            to_lower: None,
            to_upper: None,
        }
    }

    /// Gives `key` the value `value`, leaving the other keys as they were.
    pub fn set(&mut self, key: SchemaKey, value: SchemaValue)
        ensures
            *final(self) == with_entry(*old(self), key, value),
    {
        match key {
            SchemaKey::Pattern => self.pattern = Some(value),
            SchemaKey::MinLength => self.min_length = Some(value),
            SchemaKey::MaxLength => self.max_length = Some(value),
            SchemaKey::StripWhitespace => self.strip_whitespace = Some(value),
            SchemaKey::ToLower => self.to_lower = Some(value),
            SchemaKey::ToUpper => self.to_upper = Some(value),
        }
    }

    /// Whether any recognized constraint key is present.
    pub fn has_constraints(&self) -> (r: bool)
        ensures
            r == has_constraint_keys(*self),
    {
        self.pattern.is_some() || self.min_length.is_some() || self.max_length.is_some()
            || self.strip_whitespace.is_some() || self.to_lower.is_some()
            || self.to_upper.is_some()
    }
}

} // verus!
