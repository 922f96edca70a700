//! Properties that hold of every schema, validator and input.
use crate::errors::{ContextView, ErrorKind, ValErrorView};
use crate::schema::{has_constraint_keys, Schema};
use crate::text::{lemma_trimmed_idempotent, lower_of, trimmed, upper_of};
use crate::validators::{
    check_failure, is_text_type, outcome, selected_kind, unconstrained, StrConstraints,
    StrValidator, ValidatorKind,
};
use vstd::prelude::*;

verus! {

/// A text schema with no recognized constraint key selects the simple
/// validator, and that validator returns every text unchanged.
pub proof fn lemma_unconstrained_schema_selects_simple(
    type_: Seq<char>,
    schema: Schema,
    s: Seq<char>,
)
    requires
        is_text_type(type_),
        !has_constraint_keys(schema),
    ensures
        selected_kind(type_, schema) == Some(ValidatorKind::Simple),
        outcome(unconstrained(), s) == Ok::<Seq<char>, ValErrorView>(s),
{
}

/// Under a minimum length, a text with fewer characters fails as too short and
/// reports that minimum; a text with at least that many passes that check.
pub proof fn lemma_min_length_check(c: StrConstraints, s: Seq<char>)
    requires
        c.min_length is Some,
    ensures
        s.len() < c.min_length->0 ==> outcome(c, s) == Err::<Seq<char>, ValErrorView>(
            ValErrorView {
                kind: ErrorKind::StrTooShort,
                context: ContextView::MinLength(c.min_length->0),
                input_value: s,
            },
        ),
        s.len() >= c.min_length->0 ==> check_failure(c, s) != Some(ErrorKind::StrTooShort),
{
}

/// With both lowercasing and uppercasing asked for, a successful result is
/// the lowercase form (of the trimmed text, where trimming is asked for).
pub proof fn lemma_lowercase_takes_precedence(c: StrConstraints, s: Seq<char>)
    requires
        c.to_lower,
        c.to_upper,
    ensures
        outcome(c, s) is Ok ==> outcome(c, s)->Ok_0 == lower_of(
            if c.strip_whitespace {
                trimmed(s)
            } else {
                s
            },
        ),
{
}

/// Whether the configured case mapping leaves `t` as it is and, where
/// trimming is configured too, `t` has no whitespace at its ends.
pub open spec fn case_settled(c: StrConstraints, t: Seq<char>) -> bool {
    &&& c.to_lower ==> lower_of(t) == t
    &&& !c.to_lower && c.to_upper ==> upper_of(t) == t
    &&& c.strip_whitespace && (c.to_lower || c.to_upper) ==> trimmed(t) == t
}

/// Validating again what a validation returned gives it back unchanged, once
/// it passes the checks: trimming is idempotent, and the case mapping is
/// taken to leave it as it is.
pub proof fn lemma_revalidation_is_idempotent(c: StrConstraints, s: Seq<char>)
    requires
        outcome(c, s) is Ok,
        check_failure(c, outcome(c, s)->Ok_0) is None,
        case_settled(c, outcome(c, s)->Ok_0),
    ensures
        outcome(c, outcome(c, s)->Ok_0) == outcome(c, s),
{
    lemma_trimmed_idempotent(s);
}

/// A duplicate validates every text exactly as the original does.
pub proof fn lemma_duplicate_agrees(original: StrValidator, copy: StrValidator, s: Seq<char>)
    requires
        copy@ == original@,
    ensures
        outcome(copy@, s) == outcome(original@, s),
{
}

} // verus!
