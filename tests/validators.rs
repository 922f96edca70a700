use str_validators::errors::{BuildError, BuildErrorKind, ErrorContext, ErrorKind, ValError};
use str_validators::schema::{Schema, SchemaKey, SchemaValue};
use str_validators::validators::{FullStrValidator, SimpleStrValidator, StrValidator};

fn schema_of(entries: Vec<(SchemaKey, SchemaValue)>) -> Schema {
    let mut s = Schema::new();
    for (k, v) in entries {
        s.set(k, v);
    }
    s
}

fn built(entries: Vec<(SchemaKey, SchemaValue)>) -> StrValidator {
    match StrValidator::build("str", &schema_of(entries)) {
        Some(Ok(v)) => v,
        Some(Err(e)) => panic!("build failed: {:?}", e),
        None => panic!("no validator kind accepted the schema"),
    }
}

fn build_error(entries: Vec<(SchemaKey, SchemaValue)>) -> BuildError {
    match StrValidator::build("str", &schema_of(entries)) {
        Some(Err(e)) => e,
        _ => panic!("build was expected to fail"),
    }
}

fn text(s: &str) -> SchemaValue {
    SchemaValue::Str(s.to_string())
}

fn ok(s: &str) -> Result<String, ValError> {
    Ok(s.to_string())
}

#[test]
fn unconstrained_schema_selects_simple() {
    let v = built(vec![]);
    assert!(matches!(v, StrValidator::Simple(_)));
    let long = "x".repeat(10_000);
    assert_eq!(v.validate(&long), Ok(long.clone()));
    assert_eq!(v.validate(""), ok(""));
    assert_eq!(v.validate("  Not A Pattern!  "), ok("  Not A Pattern!  "));
}

#[test]
fn any_constraint_key_selects_full() {
    let v = built(vec![(SchemaKey::StripWhitespace, SchemaValue::Bool(false))]);
    assert!(matches!(v, StrValidator::Full(_)));
    assert_eq!(v.validate("  a "), ok("  a "));
}

#[test]
fn other_declared_type_selects_nothing() {
    assert!(StrValidator::build("int", &Schema::new()).is_none());
    assert!(StrValidator::build("", &Schema::new()).is_none());
}

#[test]
fn is_match_per_kind() {
    let empty = Schema::new();
    let constrained = schema_of(vec![(SchemaKey::ToUpper, SchemaValue::Bool(true))]);
    assert!(SimpleStrValidator::is_match("str", &empty));
    assert!(!SimpleStrValidator::is_match("str", &constrained));
    assert!(!SimpleStrValidator::is_match("bytes", &empty));
    assert!(FullStrValidator::is_match("str", &empty));
    assert!(FullStrValidator::is_match("str", &constrained));
    assert!(!FullStrValidator::is_match("bytes", &constrained));
}

#[test]
fn min_length_five() {
    let v = built(vec![(SchemaKey::MinLength, SchemaValue::Int(5))]);
    for s in ["", "a", "abcd"] {
        assert_eq!(
            v.validate(s),
            Err(ValError {
                kind: ErrorKind::StrTooShort,
                context: ErrorContext::MinLength(5),
                input_value: s.to_string(),
            })
        );
    }
    assert_eq!(v.validate("abcde"), ok("abcde"));
    assert_eq!(v.validate("abcdefgh"), ok("abcdefgh"));
}

#[test]
fn max_length_three() {
    let v = built(vec![(SchemaKey::MaxLength, SchemaValue::Int(3))]);
    assert_eq!(
        v.validate("abcd"),
        Err(ValError {
            kind: ErrorKind::StrTooLong,
            context: ErrorContext::MaxLength(3),
            input_value: "abcd".to_string(),
        })
    );
    assert_eq!(v.validate("abc"), ok("abc"));
}

#[test]
fn lengths_count_characters() {
    let v = built(vec![
        (SchemaKey::MinLength, SchemaValue::Int(5)),
        (SchemaKey::MaxLength, SchemaValue::Int(5)),
    ]);
    assert_eq!(v.validate("héllo"), ok("héllo"));
    assert_eq!(v.validate("日本語です"), ok("日本語です"));
    assert_eq!(v.validate("日本語").unwrap_err().kind, ErrorKind::StrTooShort);
}

#[test]
fn min_length_checked_before_max_length() {
    let v = built(vec![
        (SchemaKey::MinLength, SchemaValue::Int(5)),
        (SchemaKey::MaxLength, SchemaValue::Int(3)),
    ]);
    assert_eq!(v.validate("abcd").unwrap_err().kind, ErrorKind::StrTooShort);
    assert_eq!(v.validate("abcdef").unwrap_err().kind, ErrorKind::StrTooLong);
}

#[test]
fn pattern_lowercase_letters() {
    let v = built(vec![(SchemaKey::Pattern, text("^[a-z]+$"))]);
    assert_eq!(
        v.validate("Hello"),
        Err(ValError {
            kind: ErrorKind::StrPatternMismatch,
            context: ErrorContext::Pattern("^[a-z]+$".to_string()),
            input_value: "Hello".to_string(),
        })
    );
    assert_eq!(v.validate("hello"), ok("hello"));
}

#[test]
fn pattern_matches_anywhere_unless_anchored() {
    let v = built(vec![(SchemaKey::Pattern, text("[0-9]"))]);
    assert_eq!(v.validate("ab3cd"), ok("ab3cd"));
    assert_eq!(v.validate("abcd").unwrap_err().kind, ErrorKind::StrPatternMismatch);
}

#[test]
fn length_checked_before_pattern() {
    let v = built(vec![
        (SchemaKey::MaxLength, SchemaValue::Int(2)),
        (SchemaKey::Pattern, text("^[0-9]+$")),
    ]);
    assert_eq!(v.validate("abc").unwrap_err().kind, ErrorKind::StrTooLong);
    assert_eq!(v.validate("ab").unwrap_err().kind, ErrorKind::StrPatternMismatch);
}

#[test]
fn strip_whitespace_trims() {
    let v = built(vec![(SchemaKey::StripWhitespace, SchemaValue::Bool(true))]);
    assert_eq!(v.validate("  hi  "), ok("hi"));
    assert_eq!(v.validate("\u{3000}\tx y\n"), ok("x y"));
    assert_eq!(v.validate("   "), ok(""));
}

#[test]
fn strip_whitespace_after_min_length() {
    let v = built(vec![
        (SchemaKey::MinLength, SchemaValue::Int(6)),
        (SchemaKey::StripWhitespace, SchemaValue::Bool(true)),
    ]);
    assert_eq!(v.validate("  hi  "), ok("hi"));
}

#[test]
fn pattern_sees_untrimmed_value() {
    let v = built(vec![
        (SchemaKey::Pattern, text("^ ")),
        (SchemaKey::StripWhitespace, SchemaValue::Bool(true)),
    ]);
    assert_eq!(v.validate(" hi"), ok("hi"));
    assert_eq!(v.validate("hi ").unwrap_err().kind, ErrorKind::StrPatternMismatch);
}

#[test]
fn lower_wins_over_upper() {
    let v = built(vec![
        (SchemaKey::ToLower, SchemaValue::Bool(true)),
        (SchemaKey::ToUpper, SchemaValue::Bool(true)),
    ]);
    assert_eq!(v.validate("AbC"), ok("abc"));
}

#[test]
fn case_mappings() {
    let lower = built(vec![(SchemaKey::ToLower, SchemaValue::Bool(true))]);
    let upper = built(vec![(SchemaKey::ToUpper, SchemaValue::Bool(true))]);
    assert_eq!(lower.validate("ÀbÇ"), ok("àbç"));
    assert_eq!(upper.validate("àbç"), ok("ÀBÇ"));
    assert_eq!(upper.validate("straße"), ok("STRASSE"));
}

#[test]
fn strip_then_lowercase() {
    let v = built(vec![
        (SchemaKey::StripWhitespace, SchemaValue::Bool(true)),
        (SchemaKey::ToLower, SchemaValue::Bool(true)),
    ]);
    assert_eq!(v.validate("  AbC \n"), ok("abc"));
}

#[test]
fn revalidating_output_is_idempotent() {
    let v = built(vec![
        (SchemaKey::StripWhitespace, SchemaValue::Bool(true)),
        (SchemaKey::ToUpper, SchemaValue::Bool(true)),
        (SchemaKey::MaxLength, SchemaValue::Int(20)),
    ]);
    let first = v.validate("  mixed Case ").unwrap();
    assert_eq!(first, "MIXED CASE");
    assert_eq!(v.validate(&first), Ok(first.clone()));
}

#[test]
fn duplicate_behaves_like_original() {
    let mut schema = schema_of(vec![
        (SchemaKey::Pattern, text("^[a-z ]+$")),
        (SchemaKey::MinLength, SchemaValue::Int(2)),
        (SchemaKey::StripWhitespace, SchemaValue::Bool(true)),
    ]);
    let original = match StrValidator::build("str", &schema) {
        Some(Ok(v)) => v,
        _ => panic!("build failed"),
    };
    let copy = original.duplicate();
    schema.set(SchemaKey::MinLength, SchemaValue::Int(100));
    for s in ["a", " ab ", "AB", "abc", ""] {
        assert_eq!(copy.validate(s), original.validate(s));
    }
    assert_eq!(copy.validate(" ab "), ok("ab"));
    assert!(matches!(copy, StrValidator::Full(_)));
    let simple = built(vec![]).duplicate();
    assert!(matches!(simple, StrValidator::Simple(_)));
}

#[test]
fn invalid_pattern_fails_build() {
    assert_eq!(
        build_error(vec![(SchemaKey::Pattern, text("(unclosed"))]),
        BuildError { key: SchemaKey::Pattern, kind: BuildErrorKind::PatternSyntax }
    );
    assert_eq!(
        build_error(vec![(SchemaKey::Pattern, SchemaValue::Int(3))]),
        BuildError { key: SchemaKey::Pattern, kind: BuildErrorKind::WrongShape }
    );
}

#[test]
fn malformed_constraints_fail_build() {
    let wrong = |key| BuildError { key, kind: BuildErrorKind::WrongShape };
    assert_eq!(build_error(vec![(SchemaKey::MinLength, SchemaValue::Int(-1))]), wrong(SchemaKey::MinLength));
    assert_eq!(
        build_error(vec![(SchemaKey::MinLength, SchemaValue::Bool(true))]),
        wrong(SchemaKey::MinLength)
    );
    assert_eq!(build_error(vec![(SchemaKey::MaxLength, text("3"))]), wrong(SchemaKey::MaxLength));
    assert_eq!(
        build_error(vec![(SchemaKey::MaxLength, SchemaValue::Int(usize::MAX as i128 + 1))]),
        wrong(SchemaKey::MaxLength)
    );
    assert_eq!(
        build_error(vec![(SchemaKey::StripWhitespace, SchemaValue::Int(1))]),
        wrong(SchemaKey::StripWhitespace)
    );
    assert_eq!(build_error(vec![(SchemaKey::ToLower, text("yes"))]), wrong(SchemaKey::ToLower));
    assert_eq!(build_error(vec![(SchemaKey::ToUpper, SchemaValue::Other)]), wrong(SchemaKey::ToUpper));
}

#[test]
fn first_malformed_constraint_is_reported() {
    let e = build_error(vec![
        (SchemaKey::ToUpper, SchemaValue::Other),
        (SchemaKey::MinLength, SchemaValue::Other),
        (SchemaKey::Pattern, text("[")),
    ]);
    assert_eq!(e, BuildError { key: SchemaKey::Pattern, kind: BuildErrorKind::PatternSyntax });
    let e = build_error(vec![
        (SchemaKey::ToUpper, SchemaValue::Other),
        (SchemaKey::MaxLength, SchemaValue::Other),
    ]);
    assert_eq!(e.key, SchemaKey::MaxLength);
}

#[test]
fn largest_length_bound_is_accepted() {
    let v = built(vec![(SchemaKey::MaxLength, SchemaValue::Int(usize::MAX as i128))]);
    assert_eq!(v.validate("anything"), ok("anything"));
}

#[test]
fn simple_build_and_validate() {
    let v = SimpleStrValidator::build(&Schema::new()).unwrap();
    assert_eq!(v.validate("  Raw  "), ok("  Raw  "));
    assert!(matches!(v.clone_dyn(), StrValidator::Simple(_)));
}

#[test]
fn full_build_directly() {
    let schema = schema_of(vec![(SchemaKey::ToUpper, SchemaValue::Bool(true))]);
    let v = FullStrValidator::build(&schema).unwrap();
    assert_eq!(v.validate("abc"), ok("ABC"));
    assert_eq!(v.clone_dyn().validate("x"), ok("X"));
}

#[test]
fn wrong_type_error() {
    let e = ValError::wrong_type("42");
    assert_eq!(e.kind, ErrorKind::WrongType);
    assert_eq!(e.context, ErrorContext::Empty);
    assert_eq!(e.input_value, "42");
}

#[test]
fn schema_keys_and_presence() {
    assert_eq!(SchemaKey::Pattern.name(), "pattern");
    assert_eq!(SchemaKey::MinLength.name(), "min_length");
    assert_eq!(SchemaKey::MaxLength.name(), "max_length");
    assert_eq!(SchemaKey::StripWhitespace.name(), "strip_whitespace");
    assert_eq!(SchemaKey::ToLower.name(), "to_lower");
    assert_eq!(SchemaKey::ToUpper.name(), "to_upper");
    assert!(!Schema::new().has_constraints());
    assert!(schema_of(vec![(SchemaKey::ToLower, SchemaValue::Other)]).has_constraints());
}
