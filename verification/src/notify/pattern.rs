//! Regular expressions of rules, kept together with their source text.

use vstd::prelude::*;
use regex::Regex;

verus! {

#[verifier::external_type_specification]
#[verifier::external_body]
pub struct ExRegex(Regex);

/// `Clone` of `regex::Regex` (a copy of the same compiled regex); nothing is
/// stated of it.
pub assume_specification[ <Regex as Clone>::clone ](re: &Regex) -> Regex;

/// Whether `regex::Regex::new` accepts the pattern.
pub uninterp spec fn regex_compiles(pattern: Seq<char>) -> bool;

/// Whether the regex of `pattern` matches somewhere in `text`
/// (`regex::Regex::is_match`).
pub uninterp spec fn regex_matches(pattern: Seq<char>, text: Seq<char>) -> bool;

/// `regex::Regex::new`: a regex exactly when the pattern compiles.
#[verifier::external_body]
fn compile(pattern: &str) -> (r: Option<Regex>)
    ensures
        r is Some <==> regex_compiles(pattern@),
{
    match Regex::new(pattern) {
        Ok(re) => Some(re),
        Err(_) => None,
    }
}

/// A compiled regular expression and the text it was compiled from.
#[derive(Debug, Clone)]
pub struct Pattern {
    source: String,
    re: Regex,
}

impl View for Pattern {
    type V = Seq<char>;

    closed spec fn view(&self) -> Seq<char> {
        self.source@
    }
}

impl Pattern {
    /// Compile `pattern`; `None` when the regex engine refuses it.
    pub fn new(pattern: &str) -> (r: Option<Pattern>)
        ensures
            r is Some <==> regex_compiles(pattern@),
            r matches Some(p) ==> p@ == pattern@,
    {
        match compile(pattern) {
            Some(re) => Some(Pattern { source: String::from_str(pattern), re }),
            None => None,
        }
    }

    /// The source text of the pattern.
    pub fn as_str(&self) -> (r: &str)
        ensures
            r@ == self@,
    {
        self.source.as_str()
    }

    /// `regex::Regex::is_match` of the regex compiled from `self@`: whether
    /// it matches somewhere in `text`.
    #[verifier::external_body]
    pub(crate) fn is_match(&self, text: &str) -> (r: bool)
        ensures
            r == regex_matches(self@, text@),
    {
        self.re.is_match(text)
    }
}

} // verus!
