//! Texts as sequences of characters: parts of a text, and how many bytes a
//! text takes when it is stored as UTF-8.
use vstd::prelude::*;
use vstd::utf8::encode_utf8;

verus! {

/// True if `part` is a run of consecutive characters of `text`. The empty
/// text is a part of every text.
pub open spec fn is_part_of(part: Seq<char>, text: Seq<char>) -> bool {
    exists|start: int, end: int|
        0 <= start <= end <= text.len() && part == #[trigger] text.subrange(start, end)
}

/// The number of bytes of a text in UTF-8.
pub open spec fn text_bytes(text: Seq<char>) -> nat {
    encode_utf8(text).len()
}

/// The number of bytes that the texts of a column take together. Null rows
/// take none.
pub open spec fn total_bytes(rows: Seq<Option<Seq<char>>>) -> nat
    decreases rows.len(),
{
    if rows.len() == 0 {
        0
    } else {
        total_bytes(rows.drop_last()) + match rows.last() {
            Some(text) => text_bytes(text),
            None => 0,
        }
    }
}

/// True if `output` has a text only where `input` has one, and each text of
/// `output` is a part of the text in the same row of `input`.
pub open spec fn rows_are_parts(
    output: Seq<Option<Seq<char>>>,
    input: Seq<Option<Seq<char>>>,
) -> bool {
    &&& output.len() == input.len()
    &&& forall|i: int|
        0 <= i < output.len() && (#[trigger] output[i]) is Some ==> input[i] is Some && is_part_of(
            output[i]->0,
            input[i]->0,
        )
}

/// The empty text is a part of every text.
pub proof fn lemma_empty_is_part(text: Seq<char>)
    ensures
        is_part_of(Seq::<char>::empty(), text),
{
    assert(Seq::<char>::empty() =~= text.subrange(0, 0));
}

/// Two texts written one after the other take the bytes of both.
pub proof fn lemma_bytes_of_concat(first: Seq<char>, second: Seq<char>)
    ensures
        text_bytes(first + second) == text_bytes(first) + text_bytes(second),
    decreases first.len(),
{
    if first.len() == 0 {
        assert(first + second =~= second);
    } else {
        assert((first + second)[0] == first[0]);
        assert((first + second).drop_first() =~= first.drop_first() + second);
        lemma_bytes_of_concat(first.drop_first(), second);
    }
}

/// A part of a text takes no more bytes than the text.
pub proof fn lemma_part_takes_no_more_bytes(part: Seq<char>, text: Seq<char>)
    requires
        is_part_of(part, text),
    ensures
        text_bytes(part) <= text_bytes(text),
{
    let (start, end) = choose|start: int, end: int|
        0 <= start <= end <= text.len() && part == #[trigger] text.subrange(start, end);
    let before = text.subrange(0, start);
    let after = text.subrange(end, text.len() as int);
    assert(text =~= (before + part) + after);
    lemma_bytes_of_concat(before + part, after);
    lemma_bytes_of_concat(before, part);
}

/// A column whose texts are parts of the texts of another column, row by
/// row, takes no more bytes than that column.
pub proof fn lemma_parts_take_no_more_bytes(
    output: Seq<Option<Seq<char>>>,
    input: Seq<Option<Seq<char>>>,
)
    requires
        rows_are_parts(output, input),
    ensures
        total_bytes(output) <= total_bytes(input),
    decreases output.len(),
{
    if output.len() > 0 {
        let last = output.len() - 1;
        lemma_parts_take_no_more_bytes(output.drop_last(), input.drop_last());
        if output[last] is Some {
            lemma_part_takes_no_more_bytes(output[last]->0, input[last]->0);
        }
    }
}

} // verus!
