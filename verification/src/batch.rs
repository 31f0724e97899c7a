//! Text columns as a query engine holds them: Arrow string arrays, and what
//! is believed of them without proof.
use crate::text::total_bytes;
use datafusion::arrow::array::StringArray;
use vstd::prelude::*;

verus! {

/// A column of text values, each of which may be null, held as an Arrow
/// `StringArray`. Verus sees nothing inside it: what it holds is
/// [`column_rows`].
#[verifier::external_body]
#[derive(Debug)]
pub struct TextColumn {
    /// The array that holds the rows.
    pub array: StringArray,
}

/// The rows of a column in their order, as `StringArray::iter` yields them:
/// `None` where the array is null, else the text that the array holds there.
pub uninterp spec fn column_rows(column: TextColumn) -> Seq<Option<Seq<char>>>;

impl View for TextColumn {
    type V = Seq<Option<Seq<char>>>;

    open spec fn view(&self) -> Seq<Option<Seq<char>>> {
        column_rows(*self)
    }
}

/// Copies the rows out of the array, in the order of `StringArray::iter`,
/// which yields `None` for a null row and the row's text otherwise. The
/// array addresses its text by 32-bit signed offsets into one buffer, so the
/// texts together take at most `i32::MAX` bytes.
#[verifier::external_body]
pub(crate) fn column_to_rows(column: &TextColumn) -> (rows: Vec<Option<String>>)
    ensures
        rows.deep_view() == column_rows(*column),
        total_bytes(rows.deep_view()) <= i32::MAX,
{
    column.array.iter().map(|row| row.map(|text| text.to_string())).collect()
}

/// Builds the array with `StringArray::from`, which appends the rows in
/// order, a null for each `None`. Appending panics once the texts together
/// exceed what a 32-bit signed offset can address, so the rows must stay
/// within `i32::MAX` bytes.
#[verifier::external_body]
pub(crate) fn column_from_rows(rows: Vec<Option<String>>) -> (column: TextColumn)
    requires
        total_bytes(rows.deep_view()) <= i32::MAX,
    ensures
        column_rows(column) == rows.deep_view(),
{
    TextColumn { array: StringArray::from(rows) }
}

} // verus!
