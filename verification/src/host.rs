//! The query engine that hosts the function: DataFusion's values, its errors
//! and its registration of scalar functions, and what is believed of them
//! without proof.
use crate::adapter::{
    apply, apply_spec, argument_views, call_is_searchable, declaration, declaration_spec,
    Argument, ArgumentView, ScalarFunction, ScalarFunctionView, ValueKind, Volatility,
};
use crate::batch::TextColumn;
use datafusion::arrow::array::{Array, ArrayRef, StringArray};
use datafusion::arrow::datatypes::DataType;
use datafusion::error::DataFusionError;
use datafusion::logical_expr::{create_udf, ScalarUDF};
use datafusion::physical_plan::ColumnarValue;
use datafusion::scalar::ScalarValue;
use std::sync::Arc;
use vstd::prelude::*;

verus! {

/// DataFusion's value of one argument or result: an array or a scalar of any
/// type. Verus sees nothing inside it.
#[verifier::external_type_specification]
#[verifier::external_body]
pub struct ExColumnarValue(ColumnarValue);

/// DataFusion's error. Verus sees nothing inside it.
#[verifier::external_type_specification]
#[verifier::external_body]
pub struct ExDataFusionError(DataFusionError);

/// DataFusion's registered scalar function. Verus sees nothing inside it.
#[verifier::external_type_specification]
#[verifier::external_body]
pub struct ExScalarUDF(ScalarUDF);

/// What an engine value holds, as far as this function tells values apart: a
/// `StringArray` is a text column, a `Utf8` scalar a text, a `UInt32` scalar
/// an unsigned integer, and everything else is of another kind.
pub uninterp spec fn held(value: ColumnarValue) -> ArgumentView;

/// The message that a `DataFusionError::Execution` holds, `None` for an
/// error of another variant.
pub uninterp spec fn execution_message(error: DataFusionError) -> Option<Seq<char>>;

/// What a registered function declares: its name (`ScalarUDF::name`), the
/// exact types of its arguments and its volatility (`ScalarUDF::signature`)
/// and the type it returns (`ScalarUDF::return_type`), with `Utf8` read as
/// text and `UInt32` as an unsigned integer.
pub uninterp spec fn declared(udf: ScalarUDF) -> ScalarFunctionView;

/// The arguments of a call as the values they hold, in their order.
pub open spec fn held_values(args: Seq<ColumnarValue>) -> Seq<ArgumentView> {
    Seq::new(args.len(), |i: int| held(args[i]))
}

/// What the engine gets back from a call: a text column with the output
/// rows, or an execution error with the library's message.
pub open spec fn invoke_spec(args: Seq<ColumnarValue>) -> Result<ArgumentView, Option<Seq<char>>> {
    match apply_spec(held_values(args)) {
        Ok(rows) => Ok(ArgumentView::TextColumn(rows)),
        Err(error) => Err(Some(error.message())),
    }
}

/// What a call handed back, as mathematical values: what the returned value
/// holds, or the message of the execution error.
pub open spec fn invoke_outcome(result: Result<ColumnarValue, DataFusionError>) -> Result<
    ArgumentView,
    Option<Seq<char>>,
> {
    match result {
        Ok(value) => Ok(held(value)),
        Err(error) => Err(execution_message(error)),
    }
}

/// Tells the variants of `ColumnarValue` and of `ScalarValue` apart and moves
/// out what they hold. An array counts as a text column only if it is a
/// `StringArray`, which is then shared, not copied.
#[verifier::external_body]
pub(crate) fn argument_of(value: &ColumnarValue) -> (argument: Argument)
    ensures
        argument@ == held(*value),
{
    match value {
        ColumnarValue::Array(array) => match array.as_any().downcast_ref::<StringArray>() {
            Some(texts) => Argument::TextColumn(TextColumn { array: texts.clone() }),
            None => Argument::Other,
        },
        ColumnarValue::Scalar(ScalarValue::Utf8(text)) => Argument::TextScalar(text.clone()),
        ColumnarValue::Scalar(ScalarValue::UInt32(number)) => Argument::UIntScalar(*number),
        ColumnarValue::Scalar(_) => Argument::Other,
    }
}

/// Wraps the column's array as `ColumnarValue::Array`. Read back, it is a
/// text column with the same rows.
#[verifier::external_body]
pub(crate) fn column_value(column: TextColumn) -> (value: ColumnarValue)
    ensures
        held(value) == ArgumentView::TextColumn(column@),
{
    let array: ArrayRef = Arc::new(column.array);
    ColumnarValue::Array(array)
}

/// Builds `DataFusionError::Execution` around a message.
#[verifier::external_body]
pub(crate) fn execution_error(message: String) -> (error: DataFusionError)
    ensures
        execution_message(error) == Some(message@),
{
    DataFusionError::Execution(message)
}

/// Calls `create_udf`, which makes a function with the given name, exactly
/// the given argument types, the given return type and volatility, and
/// [`invoke`] as its implementation. Text is declared as `Utf8`, an unsigned
/// integer as `UInt32`.
#[verifier::external_body]
pub(crate) fn scalar_udf(function: &ScalarFunction) -> (udf: ScalarUDF)
    ensures
        declared(udf) == function@,
{
    let data_type = |kind: &ValueKind| match kind {
        ValueKind::Text => DataType::Utf8,
        ValueKind::UInt32 => DataType::UInt32,
    };
    let volatility = match function.volatility {
        Volatility::Immutable => datafusion::logical_expr::Volatility::Immutable,
        Volatility::Stable => datafusion::logical_expr::Volatility::Stable,
        Volatility::Volatile => datafusion::logical_expr::Volatility::Volatile,
    };
    let input_types = function.argument_kinds.iter().map(data_type).collect();
    let return_type = data_type(&function.return_kind);
    create_udf(&function.name, input_types, return_type, volatility, Arc::new(invoke))
}

/// What the engine calls for each batch: tells the arguments apart, applies
/// the extraction, and hands back the output column or an execution error
/// with the library's message.
///
/// A call either gives the whole output column or fails with nothing
/// produced; it fails exactly where [`apply`] fails.
pub fn invoke(args: &[ColumnarValue]) -> (result: Result<ColumnarValue, DataFusionError>)
    ensures
        invoke_outcome(result) == invoke_spec(args@),
        result is Ok ==> call_is_searchable(held_values(args@)),
{
    let mut arguments: Vec<Argument> = Vec::new();
    let mut i: usize = 0;
    while i < args.len()
        invariant
            i <= args.len(),
            arguments.len() == i,
            forall|k: int| 0 <= k < i ==> (#[trigger] arguments[k])@ == held(args[k]),
        decreases args.len() - i,
    {
        arguments.push(argument_of(&args[i]));
        i += 1;
    }
    assert(argument_views(arguments@) =~= held_values(args@));
    match apply(arguments.as_slice()) {
        Ok(column) => Ok(column_value(column)),
        Err(error) => Err(execution_error(error.message())),
    }
}

/// Creates the scalar function `regexp_extract(input, pattern, group_index)`
/// for registration with the engine, declared as [`declaration`] says and
/// implemented by [`invoke`].
pub fn create_regexp_extract() -> (udf: ScalarUDF)
    ensures
        declared(udf) == declaration_spec(),
{
    let function = declaration();
    scalar_udf(&function)
}

} // verus!
