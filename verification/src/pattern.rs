//! What this library takes on trust of the `regex` crate.
//!
//! Path patterns are regular expressions. They are compiled and matched by
//! `regex`; nothing here is proved of that crate. The two specifications below
//! say what the rest of the library relies on, over three names for what
//! `regex` decides.

use vstd::prelude::*;

verus! {

/// A compiled regular expression of the `regex` crate. Its inside is not
/// visible to the verifier.
#[verifier::external_type_specification]
#[verifier::external_body]
pub struct ExRegex(regex::Regex);

/// The error with which `regex` refuses a pattern text.
#[verifier::external_type_specification]
#[verifier::external_body]
pub struct ExRegexError(regex::Error);

/// Whether `regex`, as it is built into the program, accepts the pattern
/// text: whether `regex::Regex::new` compiles it. The answer is a matter of
/// the text alone within one program. For a text whose compiled form comes
/// near the size limit of `regex` it can differ between targets of different
/// word size, so the name speaks of one build, not of every machine.
pub uninterp spec fn regex_accepts(pattern: Seq<char>) -> bool;

/// The pattern text that a compiled regular expression stands for: for one
/// built by `regex::Regex::new`, the text it was built from.
pub uninterp spec fn regex_pattern(re: regex::Regex) -> Seq<char>;

/// Whether the regular expression written as `pattern` matches somewhere in
/// `haystack`, by the syntax and matching rules of the `regex` crate.
pub uninterp spec fn regex_is_match(pattern: Seq<char>, haystack: Seq<char>) -> bool;

/// `regex::Regex::new` compiles a pattern text. It succeeds exactly on the
/// texts that `regex` accepts, and the regular expression that it then
/// returns stands for the text given.
pub assume_specification[ regex::Regex::new ](re: &str) -> (compiled: Result<
    regex::Regex,
    regex::Error,
>)
    ensures
        compiled is Ok <==> regex_accepts(re@),
        compiled matches Ok(regex) ==> regex_pattern(regex) == re@,
;

/// `regex::Regex::is_match` searches the haystack for a match. Its answer
/// depends on nothing but the pattern that the regular expression stands for
/// and the haystack.
pub assume_specification[ regex::Regex::is_match ](
    regex: &regex::Regex,
    haystack: &str,
) -> (found: bool)
    ensures
        found == regex_is_match(regex_pattern(*regex), haystack@),
;

} // verus!
