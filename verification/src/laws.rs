//! What holds of every call, proved from the definitions of the outcome.
use crate::adapter::{
    apply_spec, argument_views, call_group_index, call_input, call_is_searchable, call_pattern,
    declared_kinds, first_fault, kind_of, Argument, ArgumentView,
};
use crate::batch::TextColumn;
use crate::column::{extract_rows, outcome, rows_are_searchable};
use crate::engine::{extract_value, lemma_extracted_text_is_part};
use crate::error::ExtractError;
use crate::host::{held, held_values, invoke_outcome, invoke_spec};
use crate::matcher::{captured, compiled, group_count, whole_match};
use crate::text::{is_part_of, rows_are_parts};
use datafusion::error::DataFusionError;
use datafusion::physical_plan::ColumnarValue;
use regex::Regex;
use vstd::prelude::*;

verus! {

/// The output column has the length of the input column, holds row by row
/// the value extracted from the input row, and is null exactly where the
/// input is.
pub proof fn lemma_output_shape(re: Regex, input: Seq<Option<Seq<char>>>, group_index: nat)
    ensures
        extract_rows(re, input, group_index).len() == input.len(),
        forall|i: int|
            0 <= i < input.len() ==> #[trigger] extract_rows(re, input, group_index)[i]
                == extract_value(re, input[i], group_index),
        forall|i: int|
            0 <= i < input.len() ==> (#[trigger] extract_rows(re, input, group_index)[i] is None
                <==> input[i] is None),
{
}

/// A call that succeeds was given a text column first, and returns a column
/// of that column's length that is null exactly where that column is. Nulls
/// come from the input alone.
pub proof fn lemma_apply_preserves_shape(args: Seq<ArgumentView>)
    requires
        apply_spec(args) is Ok,
    ensures
        args.len() == 3,
        args[0] is TextColumn,
        apply_spec(args)->Ok_0.len() == call_input(args).len(),
        forall|i: int|
            0 <= i < call_input(args).len() ==> (#[trigger] apply_spec(args)->Ok_0[i] is None
                <==> call_input(args)[i] is None),
{
    lemma_call_extracts_with_compiled_pattern(args);
    lemma_output_shape(
        compiled(call_pattern(args))->Ok_0,
        call_input(args),
        call_group_index(args),
    );
}

/// A row that is not null and in which the pattern matches nowhere gives the
/// empty text, whatever the group index.
pub proof fn lemma_no_match_gives_empty(
    re: Regex,
    input: Seq<Option<Seq<char>>>,
    group_index: nat,
    i: int,
)
    requires
        0 <= i < input.len(),
        input[i] is Some,
        captured(re, input[i]->0) is None,
    ensures
        extract_rows(re, input, group_index)[i] == Some(Seq::<char>::empty()),
{
}

/// With group index 0, a row that is not null and in which the pattern
/// matches gives the whole matched text.
pub proof fn lemma_group_zero_gives_whole_match(re: Regex, input: Seq<Option<Seq<char>>>, i: int)
    requires
        rows_are_searchable(re, input),
        0 <= i < input.len(),
        input[i] is Some,
        captured(re, input[i]->0) is Some,
    ensures
        extract_rows(re, input, 0)[i] == Some(whole_match(captured(re, input[i]->0))),
{
}

/// Every text of the output column is a part of the input text of its row:
/// nothing is extracted that was not there.
pub proof fn lemma_extracted_rows_are_parts(
    re: Regex,
    input: Seq<Option<Seq<char>>>,
    group_index: nat,
)
    requires
        rows_are_searchable(re, input),
    ensures
        rows_are_parts(extract_rows(re, input, group_index), input),
{
    assert forall|i: int|
        0 <= i < input.len() && (#[trigger] extract_rows(re, input, group_index)[i])
            is Some implies input[i] is Some && is_part_of(
        extract_rows(re, input, group_index)[i]->0,
        input[i]->0,
    ) by {
        lemma_extracted_text_is_part(captured(re, input[i]->0), input[i]->0, group_index);
    }
}

/// A row that is not null gives the empty text where the group index
/// exceeds the number of groups in the pattern, whether the pattern matches
/// the row or not.
pub proof fn lemma_group_out_of_range_gives_empty(
    re: Regex,
    input: Seq<Option<Seq<char>>>,
    group_index: nat,
    i: int,
)
    requires
        0 <= i < input.len(),
        input[i] is Some,
        captured(re, input[i]->0) is Some ==> group_index > group_count(
            captured(re, input[i]->0),
        ),
    ensures
        extract_rows(re, input, group_index)[i] == Some(Seq::<char>::empty()),
{
}

/// A group that took no part in a match gives the empty text, though the
/// pattern as a whole matched the row.
pub proof fn lemma_absent_group_gives_empty(
    re: Regex,
    input: Seq<Option<Seq<char>>>,
    group_index: nat,
    i: int,
)
    requires
        0 <= i < input.len(),
        input[i] is Some,
        captured(re, input[i]->0) is Some,
        group_index < captured(re, input[i]->0)->0.len(),
        captured(re, input[i]->0)->0[group_index as int] is None,
    ensures
        extract_rows(re, input, group_index)[i] == Some(Seq::<char>::empty()),
{
}

/// A group that took part in a match gives the text it captured.
pub proof fn lemma_present_group_gives_its_text(
    re: Regex,
    input: Seq<Option<Seq<char>>>,
    group_index: nat,
    i: int,
)
    requires
        0 <= i < input.len(),
        input[i] is Some,
        captured(re, input[i]->0) is Some,
        group_index < captured(re, input[i]->0)->0.len(),
        captured(re, input[i]->0)->0[group_index as int] is Some,
    ensures
        extract_rows(re, input, group_index)[i] == Some(
            captured(re, input[i]->0)->0[group_index as int]->0,
        ),
{
}

/// Two calls on arguments that hold the same values have the same outcome:
/// the same output column or the same error.
pub proof fn lemma_apply_is_repeatable(
    first_args: Seq<Argument>,
    second_args: Seq<Argument>,
    first: Result<TextColumn, ExtractError>,
    second: Result<TextColumn, ExtractError>,
)
    requires
        argument_views(first_args) == argument_views(second_args),
        outcome(first) == apply_spec(argument_views(first_args)),
        outcome(second) == apply_spec(argument_views(second_args)),
    ensures
        outcome(first) == outcome(second),
{
}

/// What the engine gets back from two calls on arguments that hold the same
/// values is the same: the same column or the same message.
pub proof fn lemma_invoke_is_repeatable(
    first_args: Seq<ColumnarValue>,
    second_args: Seq<ColumnarValue>,
    first: Result<ColumnarValue, DataFusionError>,
    second: Result<ColumnarValue, DataFusionError>,
)
    requires
        held_values(first_args) == held_values(second_args),
        invoke_outcome(first) == invoke_spec(first_args),
        invoke_outcome(second) == invoke_spec(second_args),
    ensures
        invoke_outcome(first) == invoke_outcome(second),
{
}

/// What the engine gets back from a call that succeeds is a text column of
/// the length of the first argument, null exactly where that argument is.
pub proof fn lemma_invoke_preserves_shape(args: Seq<ColumnarValue>)
    requires
        invoke_spec(args) is Ok,
    ensures
        args.len() == 3,
        held(args[0]) is TextColumn,
        invoke_spec(args)->Ok_0 is TextColumn,
        invoke_spec(args)->Ok_0->TextColumn_0.len() == held(args[0])->TextColumn_0.len(),
        forall|i: int|
            0 <= i < held(args[0])->TextColumn_0.len() ==> (
                #[trigger] invoke_spec(args)->Ok_0->TextColumn_0[i] is None
                    <==> held(args[0])->TextColumn_0[i] is None
            ),
{
    lemma_apply_preserves_shape(held_values(args));
}

/// A call that succeeds returns what the pattern, compiled once, extracts
/// from the column: compiling ahead and extracting later gives the same.
pub proof fn lemma_call_extracts_with_compiled_pattern(args: Seq<ArgumentView>)
    requires
        apply_spec(args) is Ok,
    ensures
        first_fault(args) is None,
        compiled(call_pattern(args)) is Ok,
        apply_spec(args)->Ok_0 == extract_rows(
            compiled(call_pattern(args))->Ok_0,
            call_input(args),
            call_group_index(args),
        ),
{
}

/// Every text that a call returns is a part of the text in the same row of
/// its input column.
pub proof fn lemma_call_extracts_parts(args: Seq<ArgumentView>)
    requires
        call_is_searchable(args),
    ensures
        apply_spec(args) is Ok,
        rows_are_parts(apply_spec(args)->Ok_0, call_input(args)),
{
    lemma_extracted_rows_are_parts(
        compiled(call_pattern(args))->Ok_0,
        call_input(args),
        call_group_index(args),
    );
}

/// A call fails on its arguments exactly when they are not a text column, a
/// present text and a present unsigned integer, in this order; it fails on
/// its pattern exactly when the arguments are in order and the pattern does
/// not compile; otherwise it succeeds.
pub proof fn lemma_apply_failures(args: Seq<ArgumentView>)
    ensures
        apply_spec(args) is Err && apply_spec(args)->Err_0 is ArgumentType <==> first_fault(args)
            is Some,
        apply_spec(args) is Err && apply_spec(args)->Err_0 is PatternCompile <==> first_fault(args)
            is None && compiled(call_pattern(args)) is Err,
        apply_spec(args) is Ok <==> first_fault(args) is None && compiled(call_pattern(args))
            is Ok,
{
}

/// Arguments that a call accepts are of the kinds that the function is
/// declared with, position by position.
pub proof fn lemma_accepted_arguments_are_as_declared(args: Seq<ArgumentView>)
    requires
        first_fault(args) is None,
    ensures
        args.len() == declared_kinds().len(),
        forall|i: int|
            0 <= i < args.len() ==> kind_of(#[trigger] args[i]) == Some(declared_kinds()[i]),
{
}

} // verus!
