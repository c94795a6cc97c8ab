//! Compiled text patterns.
//!
//! Patterns are regular expressions in the syntax of the `regex` crate, which
//! compiles and runs them. What a pattern matches is not restated here: the
//! contracts below name the engine's answers and the rest of the library
//! reasons over those names.

use vstd::prelude::*;
use regex::Regex;

verus! {

#[verifier::external_type_specification]
#[verifier::external_body]
pub struct ExRegex(regex::Regex);

#[verifier::external_type_specification]
#[verifier::external_body]
pub struct ExRegexError(regex::Error);

/// Whether `Regex::new` accepts the pattern.
pub uninterp spec fn regex_compiles(pattern: Seq<char>) -> bool;

/// Whether the compiled pattern has a match anywhere in the text
/// (`Regex::is_match`).
pub uninterp spec fn regex_is_match(pattern: Seq<char>, text: Seq<char>) -> bool;

/// The text with every non-overlapping match of the compiled pattern replaced
/// (`Regex::replace_all`).
pub uninterp spec fn regex_replace_all(
    pattern: Seq<char>,
    text: Seq<char>,
    replacement: Seq<char>,
) -> Seq<char>;

/// A pattern together with its compiled form.
///
/// The only way to make one is [`CompiledPattern::compile`], so the compiled
/// form always belongs to the source text that the view shows.
pub struct CompiledPattern {
    source: String,
    regex: Regex,
}

impl View for CompiledPattern {
    type V = Seq<char>;

    closed spec fn view(&self) -> Seq<char> {
        self.source@
    }
}

impl CompiledPattern {
    /// Calls `Regex::new`. Claims that it succeeds exactly on the patterns
    /// that [`regex_compiles`] names, and that the value returned stands for
    /// the pattern it was given.
    #[verifier::external_body]
    pub(crate) fn compile(source: &str) -> (r: Result<CompiledPattern, regex::Error>)
        ensures
            r is Ok <==> regex_compiles(source@),
            r matches Ok(p) ==> p@ == source@,
    {
        match Regex::new(source) {
            Ok(regex) => Ok(CompiledPattern { source: source.to_string(), regex }),
            Err(e) => Err(e),
        }
    }

    /// Calls `Regex::is_match`. Claims that the answer is the one that
    /// [`regex_is_match`] names for this pattern and text.
    #[verifier::external_body]
    pub(crate) fn is_match(&self, text: &str) -> (found: bool)
        ensures
            found == regex_is_match(self@, text@),
    {
        self.regex.is_match(text)
    }

    /// Calls `Regex::replace_all`. Claims that the result is the one that
    /// [`regex_replace_all`] names, and that a text without a match comes
    /// back unchanged.
    #[verifier::external_body]
    pub(crate) fn replace_all(&self, text: &str, replacement: &str) -> (out: String)
        ensures
            out@ == regex_replace_all(self@, text@, replacement@),
            !regex_is_match(self@, text@) ==> out@ == text@,
    {
        self.regex.replace_all(text, replacement).into_owned()
    }
}

} // verus!
