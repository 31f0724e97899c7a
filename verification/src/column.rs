//! Extraction over a whole column: compile the pattern once, then apply the
//! rule for one value to every row in order.
use crate::batch::{column_from_rows, column_to_rows, TextColumn};
use crate::engine::{extract, extract_value};
use crate::error::{ExtractError, ExtractErrorView};
use crate::matcher::{captured, compiled, error_text, is_search_result, regex_error_message};
use crate::text::{is_part_of, lemma_parts_take_no_more_bytes, rows_are_parts};
use regex::Regex;
use vstd::prelude::*;

verus! {

/// The output column of an expression over an input column: row by row the
/// extracted value, in the same order.
pub open spec fn extract_rows(re: Regex, input: Seq<Option<Seq<char>>>, group_index: nat) -> Seq<
    Option<Seq<char>>,
> {
    Seq::new(input.len(), |i: int| extract_value(re, input[i], group_index))
}

/// True if every text of a column has a search result of the expression
/// that a search in that text can return.
pub open spec fn rows_are_searchable(re: Regex, input: Seq<Option<Seq<char>>>) -> bool {
    forall|i: int|
        0 <= i < input.len() && (#[trigger] input[i]) is Some ==> is_search_result(
            captured(re, input[i]->0),
            input[i]->0,
        )
}

/// What a call on a column, a pattern text and a group index produces: the
/// output column of the compiled pattern, or the compiler's refusal.
pub open spec fn regexp_extract_spec(
    input: Seq<Option<Seq<char>>>,
    pattern: Seq<char>,
    group_index: nat,
) -> Result<Seq<Option<Seq<char>>>, ExtractErrorView> {
    match compiled(pattern) {
        Ok(re) => Ok(extract_rows(re, input, group_index)),
        Err(error) => Err(ExtractErrorView::PatternCompile(error_text(error))),
    }
}

/// The outcome of a call as a mathematical value.
pub open spec fn outcome(result: Result<TextColumn, ExtractError>) -> Result<
    Seq<Option<Seq<char>>>,
    ExtractErrorView,
> {
    match result {
        Ok(output) => Ok(output@),
        Err(error) => Err(error@),
    }
}

/// Turns the compiler's refusal of a pattern into the library's error, which
/// keeps the compiler's message.
pub fn pattern_error(error: &regex::Error) -> (result: ExtractError)
    ensures
        result@ == ExtractErrorView::PatternCompile(error_text(*error)),
{
    ExtractError::PatternCompile(regex_error_message(error))
}

/// Compiles a pattern text. A pattern that the compiler refuses gives
/// `PatternCompile` with the compiler's message, and nothing else does.
pub fn compile(pattern: &str) -> (result: Result<Regex, ExtractError>)
    ensures
        result is Ok <==> compiled(pattern@) is Ok,
        result matches Ok(re) ==> compiled(pattern@) == Ok::<Regex, regex::Error>(re),
        result matches Err(e) ==> e@ == ExtractErrorView::PatternCompile(
            error_text(compiled(pattern@)->Err_0),
        ),
{
    match Regex::new(pattern) {
        Ok(re) => Ok(re),
        Err(error) => Err(pattern_error(&error)),
    }
}

/// Extracts group `group_index` from each of the given rows with a compiled
/// pattern. The output has one row for each input row, in the same order; it
/// is null exactly where the input is, and each of its texts is a part of the
/// input text of its row.
pub fn extract_each(pattern: &Regex, input: &Vec<Option<String>>, group_index: usize) -> (output:
    Vec<Option<String>>)
    ensures
        output.deep_view() == extract_rows(*pattern, input.deep_view(), group_index as nat),
        output.len() == input.len(),
        forall|i: int| 0 <= i < input.len() ==> (output[i] is None <==> input[i] is None),
        rows_are_parts(output.deep_view(), input.deep_view()),
        rows_are_searchable(*pattern, input.deep_view()),
{
    let mut output: Vec<Option<String>> = Vec::new();
    let mut i: usize = 0;
    while i < input.len()
        invariant
            i <= input.len(),
            output.len() == i,
            forall|k: int|
                0 <= k < i ==> (#[trigger] output[k]).deep_view() == extract_value(
                    *pattern,
                    input[k].deep_view(),
                    group_index as nat,
                ),
            forall|k: int|
                0 <= k < i && (#[trigger] output[k]) is Some ==> input[k] is Some && is_part_of(
                    output[k]->0@,
                    input[k]->0@,
                ),
            forall|k: int|
                0 <= k < i && (#[trigger] input[k]) is Some ==> is_search_result(
                    captured(*pattern, input[k]->0@),
                    input[k]->0@,
                ),
        decreases input.len() - i,
    {
        let row = match &input[i] {
            Some(text) => extract(pattern, Some(text.as_str()), group_index),
            None => None,
        };
        output.push(row);
        i += 1;
    }
    assert(output.deep_view() =~= extract_rows(*pattern, input.deep_view(), group_index as nat));
    output
}

/// Extracts group `group_index` from every row of a column with a compiled
/// pattern. The output column has the rows of the input column in their
/// order, each replaced by what is extracted from it. It always fits into an
/// array, because no row grows.
pub fn extract_column(pattern: &Regex, input: &TextColumn, group_index: usize) -> (output:
    TextColumn)
    ensures
        output@ == extract_rows(*pattern, input@, group_index as nat),
        output@.len() == input@.len(),
        forall|i: int| 0 <= i < input@.len() ==> (output@[i] is None <==> input@[i] is None),
        rows_are_parts(output@, input@),
        rows_are_searchable(*pattern, input@),
{
    let rows = column_to_rows(input);
    let extracted = extract_each(pattern, &rows, group_index);
    proof {
        lemma_parts_take_no_more_bytes(extracted.deep_view(), rows.deep_view());
    }
    column_from_rows(extracted)
}

/// Extracts group `group_index` of `pattern` from every row of `input`.
///
/// The pattern is compiled once, before any row is read. A pattern that does
/// not compile fails the whole call with `PatternCompile`; otherwise the call
/// succeeds with a column of the input's length that is null exactly where
/// the input is.
pub fn regexp_extract(input: &TextColumn, pattern: &str, group_index: usize) -> (result: Result<
    TextColumn,
    ExtractError,
>)
    ensures
        outcome(result) == regexp_extract_spec(input@, pattern@, group_index as nat),
        result is Ok <==> compiled(pattern@) is Ok,
        result matches Ok(output) ==> output@.len() == input@.len(),
        result matches Ok(output) ==> forall|i: int|
            0 <= i < input@.len() ==> (output@[i] is None <==> input@[i] is None),
        result matches Ok(output) ==> rows_are_parts(output@, input@),
        result is Ok ==> rows_are_searchable(compiled(pattern@)->Ok_0, input@),
{
    match compile(pattern) {
        Ok(re) => Ok(extract_column(&re, input, group_index)),
        Err(error) => Err(error),
    }
}

} // verus!
