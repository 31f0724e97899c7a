//! The regular-expression engine that the library searches with, and what is
//! believed of it without proof.
use crate::text::is_part_of;
use regex::Regex;
use vstd::prelude::*;

verus! {

/// A compiled regular expression of the `regex` crate. Verus sees nothing
/// inside it.
#[verifier::external_type_specification]
#[verifier::external_body]
pub struct ExRegex(Regex);

/// The error with which `regex` refuses a pattern. Verus sees nothing inside
/// it.
#[verifier::external_type_specification]
#[verifier::external_body]
pub struct ExRegexError(regex::Error);

/// What `Regex::new` returns for a pattern text: the compiled expression, or
/// the error that refuses the pattern.
pub uninterp spec fn compiled(pattern: Seq<char>) -> Result<Regex, regex::Error>;

/// What `Regex::captures` finds in a text: `None` where the expression matches
/// nowhere, else the groups of the first match by index, each with the text it
/// captured or `None` where it took no part in the match. Index 0 is the whole
/// match.
pub uninterp spec fn captured(re: Regex, haystack: Seq<char>) -> Option<Seq<Option<Seq<char>>>>;

/// The message that `regex::Error` displays.
pub uninterp spec fn error_text(error: regex::Error) -> Seq<char>;

/// True of what a search in `haystack` can return: a match has the whole
/// match as its group 0, which is always present, and every group that took
/// part captured a part of the haystack.
pub open spec fn is_search_result(
    found: Option<Seq<Option<Seq<char>>>>,
    haystack: Seq<char>,
) -> bool {
    found matches Some(groups) ==> groups.len() >= 1 && groups[0] is Some && forall|g: int|
        0 <= g < groups.len() && (#[trigger] groups[g]) is Some ==> is_part_of(
            groups[g]->0,
            haystack,
        )
}

/// The whole matched text of a search result that holds a match.
pub open spec fn whole_match(found: Option<Seq<Option<Seq<char>>>>) -> Seq<char>
    recommends
        found is Some,
        found->0.len() >= 1,
        found->0[0] is Some,
{
    found->0[0]->0
}

/// The number of groups of a match, the whole match not counted: the number
/// of groups in the pattern.
pub open spec fn group_count(found: Option<Seq<Option<Seq<char>>>>) -> nat
    recommends
        found is Some,
{
    if found->0.len() >= 1 {
        (found->0.len() - 1) as nat
    } else {
        0
    }
}

/// `Regex::new` compiles under the default options and reads nothing but the
/// pattern text, so one pattern always has one outcome. It does not panic: a
/// pattern that is malformed, or that compiles to more than the default size
/// limit, comes back as an error.
pub assume_specification[ Regex::new ](re: &str) -> (r: Result<Regex, regex::Error>)
    ensures
        r == compiled(re@),
;

/// Calls `Regex::captures` and copies each group's `Match::as_str` out of the
/// `Captures`, in the order of `Captures::iter`, which is the order of the
/// group indices and starts with the whole match. The search is a function of
/// the expression and the text; it does not panic. Group 0 is present in
/// every match, as `Captures::get` promises for index 0, and `Match::as_str`
/// is a slice of the haystack.
#[verifier::external_body]
pub(crate) fn regex_captures(re: &Regex, haystack: &str) -> (found: Option<Vec<Option<String>>>)
    ensures
        found.deep_view() == captured(*re, haystack@),
        is_search_result(found.deep_view(), haystack@),
{
    re.captures(haystack).map(
        |caps| caps.iter().map(|group| group.map(|m| m.as_str().to_string())).collect(),
    )
}

/// Formats a `regex::Error` by its `Display` impl, which writes the syntax
/// error's text or the size limit that was exceeded.
#[verifier::external_body]
pub(crate) fn regex_error_message(error: &regex::Error) -> (message: String)
    ensures
        message@ == error_text(*error),
{
    error.to_string()
}

} // verus!
