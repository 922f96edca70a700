//! Compiled patterns, built once from a pattern text and reused per value.
use vstd::prelude::*;

verus! {

#[verifier::external_type_specification]
#[verifier::external_body]
pub struct ExRegex(regex::Regex);

#[verifier::external_type_specification]
#[verifier::external_body]
pub struct ExRegexError(regex::Error);

/// Whether the pattern text `p` is accepted by the pattern compiler.
pub uninterp spec fn pattern_compiles(p: Seq<char>) -> bool;

/// Whether a pattern compiled from `p` matches somewhere in `text`.
pub uninterp spec fn pattern_matches(p: Seq<char>, text: Seq<char>) -> bool;

/// A pattern compiled once from its source text.
///
/// Every value is made by `RegexPattern::new` or copied by `duplicate`, so the
/// compiled form always comes from `source`.
pub struct RegexPattern {
    source: String,
    compiled: regex::Regex,
}

/// Relies on `regex::Regex::new`: compiles `p`, failing exactly when the
/// pattern is not valid syntax (or is too large to compile).
#[verifier::external_body]
fn compile(p: &str) -> (r: Result<regex::Regex, regex::Error>)
    ensures
        r is Ok <==> pattern_compiles(p@),
{
    regex::Regex::new(p)
}

/// Relies on `regex::Regex::is_match`: whether the pattern matches somewhere
/// in `text`. The compiled form always comes from `p.source`.
#[verifier::external_body]
fn is_match_compiled(p: &RegexPattern, text: &str) -> (r: bool)
    ensures
        r == pattern_matches(p.source@, text@),
{
    p.compiled.is_match(text)
}

/// Relies on `Clone` for `regex::Regex`: the copy runs the same program.
#[verifier::external_body]
fn clone_compiled(re: &regex::Regex) -> regex::Regex {
    re.clone()
}

impl RegexPattern {
    /// The pattern text this was compiled from.
    pub closed spec fn source_view(&self) -> Seq<char> {
        self.source@
    }

    /// Compiles `p`; `None` exactly when `p` is not a valid pattern.
    pub fn new(p: &str) -> (r: Option<RegexPattern>)
        ensures
            r is Some <==> pattern_compiles(p@),
            r matches Some(rp) ==> rp.source_view() == p@,
    {
        match compile(p) {
            Ok(re) => Some(RegexPattern { source: p.to_owned(), compiled: re }),
            Err(_) => None,
        }
    }

    /// Whether the pattern matches somewhere in `text`.
    pub fn is_match(&self, text: &str) -> (r: bool)
        ensures
            r == pattern_matches(self.source_view(), text@),
    {
        is_match_compiled(self, text)
    }

    /// The pattern text this was compiled from.
    pub fn as_str(&self) -> (r: &str)
        ensures
            r@ == self.source_view(),
    {
        self.source.as_str()
    }

    /// An independent copy that matches exactly as this one does.
    pub fn duplicate(&self) -> (r: RegexPattern)
        ensures
            r.source_view() == self.source_view(),
    {
        RegexPattern { source: self.source.clone(), compiled: clone_compiled(&self.compiled) }
    }
}

} // verus!
