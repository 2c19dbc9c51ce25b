//! Name patterns: regular expressions compiled and evaluated by the
//! `regex` crate behind trusted wrappers.

use vstd::prelude::*;

verus! {

/// Whether `regex::Regex::new` accepts a pattern text; which texts it
/// accepts depends on the text alone.
pub uninterp spec fn regex_ok(pattern: Seq<char>) -> bool;

/// Whether the regular expression compiled from `pattern` finds a match
/// anywhere in `text`; the result depends on the two texts alone.
pub uninterp spec fn regex_match(pattern: Seq<char>, text: Seq<char>) -> bool;

#[verifier::external_type_specification]
#[verifier::external_body]
pub struct ExRegex(regex::Regex);

/// One compiled name pattern, keeping the text it was compiled from.
/// Its view is that pattern text.
pub struct Pattern {
    regex: regex::Regex,
    text: String,
}

impl View for Pattern {
    type V = Seq<char>;

    closed spec fn view(&self) -> Seq<char> {
        self.text@
    }
}

/// Rejection of a malformed name pattern at construction time, naming
/// the offending pattern text.
#[derive(Debug)]
pub struct PatternError {
    pub pattern: String,
}

/// Relies on `regex::Regex::new`: it compiles a pattern text exactly
/// when the text is a well-formed pattern, and it never panics.
#[verifier::external_body]
pub(crate) fn pattern_compile(pattern: &str) -> (r: Option<Pattern>)
    ensures
        r is Some <==> regex_ok(pattern@),
        r matches Some(p) ==> p@ == pattern@,
{
    match regex::Regex::new(pattern) {
        Ok(regex) => Some(Pattern { regex, text: pattern.to_owned() }),
        Err(_) => None,
    }
}

/// Relies on `regex::Regex::is_match`: whether the pattern matches
/// anywhere in `text`; evaluation never fails or panics.
#[verifier::external_body]
pub(crate) fn pattern_is_match(p: &Pattern, text: &str) -> (r: bool)
    ensures
        r == regex_match(p@, text@),
{
    p.regex.is_match(text)
}

} // verus!
