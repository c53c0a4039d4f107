//! The domain filter: a pattern compiled once at startup, consulted for every
//! reconciliation unit before any side effect is planned.

use vstd::prelude::*;
use regex::Regex;

verus! {

/// Whether the regex syntax accepts `pattern`: exactly the strings on which
/// `regex::Regex::new` returns `Ok`.
pub uninterp spec fn pattern_accepted(pattern: Seq<char>) -> bool;

/// Whether a regex compiled from `pattern` matches somewhere in `text`:
/// what `regex::Regex::is_match` returns, a function of the two strings
/// alone.
pub uninterp spec fn pattern_matches(pattern: Seq<char>, text: Seq<char>) -> bool;

#[verifier::external_type_specification]
#[verifier::external_body]
pub struct ExRegex(Regex);

/// The hostname filter. Holds the pattern it was built from together with
/// its compilation; `compiled` is always the compilation of `pattern`, since
/// [`DomainFilter::new`] is the only constructor.
pub struct DomainFilter {
    pattern: String,
    compiled: Regex,
}

impl DomainFilter {
    /// The pattern this filter was built from.
    pub closed spec fn pattern(&self) -> Seq<char> {
        self.pattern@
    }

    /// Relies on `regex::Regex::new`: it returns `Ok` exactly on the
    /// patterns the regex syntax accepts.
    #[verifier::external_body]
    fn compile(pattern: &str) -> (r: Option<Regex>)
        ensures
            r is Some <==> pattern_accepted(pattern@),
    {
        Regex::new(pattern).ok()
    }

    /// Relies on `regex::Regex::is_match`: its result is a function of the
    /// pattern the receiver was compiled from and of the text alone.
    #[verifier::external_body]
    fn compiled_is_match(&self, text: &str) -> (r: bool)
        ensures
            r == pattern_matches(self.pattern@, text@),
    {
        self.compiled.is_match(text)
    }

    /// Compiles `pattern` into a filter; `None` exactly when the pattern is
    /// not valid regex syntax.
    pub fn new(pattern: String) -> (r: Option<DomainFilter>)
        ensures
            r is Some <==> pattern_accepted(pattern@),
            r matches Some(f) ==> f.pattern() == pattern@,
    {
        match Self::compile(pattern.as_str()) {
            Some(compiled) => Some(DomainFilter { pattern, compiled }),
            None => None,
        }
    }

    /// Whether `host` is in scope for synchronization.
    pub fn is_match(&self, host: &str) -> (r: bool)
        ensures
            r == pattern_matches(self.pattern(), host@),
    {
        self.compiled_is_match(host)
    }
}

} // verus!
