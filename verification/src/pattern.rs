//! Regular-expression search, done by the `regex` crate.
use vstd::prelude::*;

verus! {

#[verifier::external_type_specification]
#[verifier::external_body]
pub struct ExRegex(regex::Regex);

#[verifier::external_type_specification]
#[verifier::external_body]
pub struct ExRegexError(regex::Error);

/// Whether `regex::Regex::new` accepts `pattern`.
pub uninterp spec fn regex_accepts(pattern: Seq<char>) -> bool;

/// The texts of the successive non-overlapping matches that `regex::Regex::find_iter` yields
/// for the regular expression `pattern` on `haystack`.
pub uninterp spec fn regex_matches(pattern: Seq<char>, haystack: Seq<char>) -> Seq<Seq<char>>;

/// A compiled regular expression together with the pattern it was compiled from.
pub struct Pattern {
    source: String,
    regex: regex::Regex,
}

impl Pattern {
    /// The pattern that the regular expression was compiled from.
    pub closed spec fn spec_source(&self) -> Seq<char> {
        self.source@
    }

    /// `regex::Regex::new`: compiles `source`. The contract claims that the call succeeds
    /// exactly when `regex_accepts(source)`, and that the compiled expression keeps `source`.
    #[verifier::external_body]
    pub(crate) fn compile(source: &str) -> (r: Result<Pattern, regex::Error>)
        ensures
            r is Ok <==> regex_accepts(source@),
            r matches Ok(p) ==> p.spec_source() == source@,
    {
        match regex::Regex::new(source) {
            Ok(regex) => Ok(Pattern { source: source.to_string(), regex }),
            Err(e) => Err(e),
        }
    }

    /// `regex::Regex::find_iter`, each `Match` taken by `Match::as_str`. The contract claims
    /// that the texts are `regex_matches(source, haystack)`, and, as `Match::as_str` documents,
    /// that each of them is a part of `haystack`.
    #[verifier::external_body]
    pub(crate) fn find_all(&self, haystack: &str) -> (r: Vec<String>)
        ensures
            r@.map_values(|m: String| m@) == regex_matches(self.spec_source(), haystack@),
            forall|i: int| 0 <= i < r@.len() ==> crate::text::contains(haystack@, #[trigger] r@[i]@),
    {
        self.regex.find_iter(haystack).map(|m| m.as_str().to_string()).collect()
    }
}

} // verus!
