//! The rule for one value: which text a search result gives for a group
//! index, and what a value of the column becomes.
use crate::matcher::{captured, is_search_result, regex_captures};
use crate::text::{is_part_of, lemma_empty_is_part};
use regex::Regex;
use vstd::prelude::*;

verus! {

/// The text that a search result gives for a group index: what the group
/// captured, and the empty text where nothing matched, where the match has no
/// group of that index, or where the group took no part in the match.
pub open spec fn extracted_text(found: Option<Seq<Option<Seq<char>>>>, group_index: nat) -> Seq<
    char,
> {
    match found {
        Some(groups) if group_index < groups.len() => match groups[group_index as int] {
            Some(text) => text,
            None => Seq::empty(),
        },
        _ => Seq::empty(),
    }
}

/// What one value of the column becomes under an expression and a group
/// index: null stays null, and a text gives the text extracted from its
/// search result.
pub open spec fn extract_value(re: Regex, value: Option<Seq<char>>, group_index: nat) -> Option<
    Seq<char>,
> {
    match value {
        None => None,
        Some(text) => Some(extracted_text(captured(re, text), group_index)),
    }
}

/// What a search in `haystack` gives for any group index is a part of the
/// haystack.
pub proof fn lemma_extracted_text_is_part(
    found: Option<Seq<Option<Seq<char>>>>,
    haystack: Seq<char>,
    group_index: nat,
)
    requires
        is_search_result(found, haystack),
    ensures
        is_part_of(extracted_text(found, group_index), haystack),
{
    lemma_empty_is_part(haystack);
}

/// Picks the text of group `group_index` out of a search result.
pub fn extracted(found: &Option<Vec<Option<String>>>, group_index: usize) -> (text: String)
    ensures
        text@ == extracted_text(found.deep_view(), group_index as nat),
{
    match found {
        Some(groups) => {
            if group_index < groups.len() {
                match &groups[group_index] {
                    Some(text) => text.clone(),
                    None => String::new(),
                }
            } else {
                String::new()
            }
        },
        None => String::new(),
    }
}

/// Extracts group `group_index` of the first match of `pattern` in `value`.
///
/// A null value gives null and is not searched. A present value always gives
/// a text, which is a part of the value, and is empty unless the pattern
/// matched and the group took part.
pub fn extract(pattern: &Regex, value: Option<&str>, group_index: usize) -> (result: Option<String>)
    ensures
        result.deep_view() == extract_value(*pattern, value.deep_view(), group_index as nat),
        value matches Some(text) ==> is_search_result(captured(*pattern, text@), text@),
        value matches Some(text) ==> is_part_of(result->0@, text@),
{
    match value {
        None => None,
        Some(text) => {
            let found = regex_captures(pattern, text);
            proof {
                lemma_extracted_text_is_part(found.deep_view(), text@, group_index as nat);
            }
            Some(extracted(&found, group_index))
        },
    }
}

} // verus!
