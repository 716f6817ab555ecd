//! What the library takes on trust from the `regex` crate.
//!
//! A compiled expression is opaque to the verifier. The library reasons about
//! it only through the text that it was written as and the set of texts in
//! which it finds a match, and about compiling only through what a pattern
//! comes to.

use regex::Regex;
use vstd::prelude::*;

verus! {

/// A compiled expression of the `regex` crate, taken as it is.
#[verifier::external_type_specification]
#[verifier::external_body]
pub struct ExRegex(regex::Regex);

/// The texts in which a compiled expression finds at least one match.
///
/// This is the meaning of the expression as far as the library is concerned:
/// a search has no state that a caller can observe, so the same expression
/// and the same text always give the same answer.
pub uninterp spec fn accepted(pattern: Regex) -> Set<Seq<char>>;

/// The text that a compiled expression was written as.
pub uninterp spec fn source(pattern: Regex) -> Seq<char>;

/// What a compiled expression is to the library.
pub struct PatternModel {
    /// The text that the expression was written as.
    pub text: Seq<char>,
    /// The texts in which the expression finds a match.
    pub accepted: Set<Seq<char>>,
}

/// A compiled expression as the library sees it.
pub open spec fn meaning(pattern: Regex) -> PatternModel {
    PatternModel { text: source(pattern), accepted: accepted(pattern) }
}

/// `Regex::as_str` hands out the text that the expression was compiled from,
/// which the expression keeps unchanged.
pub assume_specification[ Regex::as_str ](pattern: &Regex) -> (text: &str)
    ensures
        text@ == source(*pattern),
;

/// `Regex::is_match` is true exactly when the expression matches somewhere in
/// the haystack. It starts the search at offset zero and cannot panic there.
pub assume_specification[ Regex::is_match ](pattern: &Regex, haystack: &str) -> (found: bool)
    ensures
        found == accepted(*pattern).contains(haystack@),
;

/// `Regex::clone` gives an expression with the same text that matches the
/// same texts: the clone shares the compiled program and the pattern text of
/// the one it was made from.
pub assume_specification[ <Regex as Clone>::clone ](pattern: &Regex) -> (copy: Regex)
    ensures
        accepted(copy) == accepted(*pattern),
        source(copy) == source(*pattern),
;

/// Why a pattern was turned down.
#[derive(Debug)]
pub struct PatternError {
    /// What the compiler of expressions had to say.
    pub message: String,
}

/// What compiling a pattern comes to: the texts that the compiled expression
/// matches, or the message that says why the pattern does not compile.
///
/// Compiling works from the pattern alone, under a configuration that is
/// fixed, so the same pattern always comes to the same.
pub uninterp spec fn compiled(pattern: Seq<char>) -> Result<Set<Seq<char>>, Seq<char>>;

/// The outcome of compiling as plain values: an expression is taken by the
/// texts that it matches, an error by its message.
pub open spec fn outcome(result: Result<Regex, PatternError>) -> Result<
    Set<Seq<char>>,
    Seq<char>,
> {
    match result {
        Ok(expression) => Ok(accepted(expression)),
        Err(error) => Err(error.message@),
    }
}

/// `Regex::new` compiles a pattern, or says why it cannot: the pattern is
/// malformed, or the compiled expression would be too big. It builds with
/// the default options and size limits and looks at nothing but the pattern,
/// so that what it returns is named after the pattern alone. A compiled
/// expression keeps the pattern as its text. Nothing is claimed of which
/// patterns compile, nor of what a compiled one matches.
#[verifier::external_body]
pub(crate) fn compile(pattern: &str) -> (result: Result<Regex, PatternError>)
    ensures
        outcome(result) == compiled(pattern@),
        result matches Ok(expression) ==> source(expression) == pattern@,
{
    match Regex::new(pattern) {
        Ok(expression) => Ok(expression),
        Err(error) => Err(PatternError { message: error.to_string() }),
    }
}

} // verus!
