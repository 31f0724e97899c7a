//! The calling convention of a query engine: three positional arguments are
//! checked, unpacked and handed to the extraction, and the function is
//! declared to the engine by name, argument kinds, return kind and
//! volatility.
use crate::batch::TextColumn;
use crate::column::{outcome, regexp_extract, regexp_extract_spec, rows_are_searchable};
use crate::matcher::compiled;
use crate::error::{Expected, ExtractError, ExtractErrorView};
use vstd::prelude::*;

verus! {

/// One positional argument as an engine hands it over.
#[derive(Debug)]
pub enum Argument {
    /// A column of text values, each of which may be null.
    TextColumn(TextColumn),
    /// A single text value, which may be null.
    TextScalar(Option<String>),
    /// A single unsigned 32-bit integer, which may be null.
    UIntScalar(Option<u32>),
    /// A value of any other kind.
    Other,
}

/// An [`Argument`] as a mathematical value.
pub enum ArgumentView {
    TextColumn(Seq<Option<Seq<char>>>),
    TextScalar(Option<Seq<char>>),
    UIntScalar(Option<u32>),
    Other,
}

impl View for Argument {
    type V = ArgumentView;

    open spec fn view(&self) -> ArgumentView {
        match self {
            Argument::TextColumn(column) => ArgumentView::TextColumn(column@),
            Argument::TextScalar(text) => ArgumentView::TextScalar(text.deep_view()),
            Argument::UIntScalar(number) => ArgumentView::UIntScalar(*number),
            Argument::Other => ArgumentView::Other,
        }
    }
}

/// The arguments of a call as mathematical values, in their order.
pub open spec fn argument_views(args: Seq<Argument>) -> Seq<ArgumentView> {
    Seq::new(args.len(), |i: int| args[i]@)
}

/// The first requirement that a list of arguments does not meet, if any. The
/// count is checked first, then the positions from left to right.
pub open spec fn first_fault(args: Seq<ArgumentView>) -> Option<Expected> {
    if args.len() != 3 {
        Some(Expected::ArgumentCount)
    } else if !(args[0] is TextColumn) {
        Some(Expected::TextColumn)
    } else if !(args[1] is TextScalar && args[1]->TextScalar_0 is Some) {
        Some(Expected::PatternText)
    } else if !(args[2] is UIntScalar && args[2]->UIntScalar_0 is Some) {
        Some(Expected::GroupIndex)
    } else {
        None
    }
}

/// The input column of a call whose arguments are in order.
pub open spec fn call_input(args: Seq<ArgumentView>) -> Seq<Option<Seq<char>>>
    recommends
        first_fault(args) is None,
{
    args[0]->TextColumn_0
}

/// The pattern text of a call whose arguments are in order.
pub open spec fn call_pattern(args: Seq<ArgumentView>) -> Seq<char>
    recommends
        first_fault(args) is None,
{
    args[1]->TextScalar_0->0
}

/// The group index of a call whose arguments are in order.
pub open spec fn call_group_index(args: Seq<ArgumentView>) -> nat
    recommends
        first_fault(args) is None,
{
    args[2]->UIntScalar_0->0 as nat
}

/// What a call on a list of arguments produces: the first fault as an
/// `ArgumentType` error, else the extraction over the column, the pattern and
/// the group index that the three arguments hold.
pub open spec fn apply_spec(args: Seq<ArgumentView>) -> Result<
    Seq<Option<Seq<char>>>,
    ExtractErrorView,
> {
    match first_fault(args) {
        Some(expected) => Err(ExtractErrorView::ArgumentType(expected)),
        None => regexp_extract_spec(call_input(args), call_pattern(args), call_group_index(args)),
    }
}

/// True if the arguments are in order, the pattern compiles, and every text
/// of the column has a search result of the compiled pattern that a search
/// in that text can return.
pub open spec fn call_is_searchable(args: Seq<ArgumentView>) -> bool {
    &&& first_fault(args) is None
    &&& compiled(call_pattern(args)) is Ok
    &&& rows_are_searchable(compiled(call_pattern(args))->Ok_0, call_input(args))
}

/// Binds the positional arguments (input column, pattern, group index) to the
/// extraction.
///
/// The arguments are checked before the pattern is compiled, and the pattern
/// is compiled before any row is read: a call either gives the whole output
/// column or fails with nothing produced.
pub fn apply(args: &[Argument]) -> (result: Result<TextColumn, ExtractError>)
    ensures
        outcome(result) == apply_spec(argument_views(args@)),
        result is Ok ==> args.len() == 3 && args[0] is TextColumn,
        result matches Ok(output) ==> output@.len() == args[0]->TextColumn_0@.len(),
        result matches Ok(output) ==> forall|i: int|
            0 <= i < output@.len() ==> (output@[i] is None <==> args[0]->TextColumn_0@[i] is None),
        result is Ok ==> call_is_searchable(argument_views(args@)),
{
    if args.len() != 3 {
        return Err(ExtractError::ArgumentType(Expected::ArgumentCount));
    }
    let input = match &args[0] {
        Argument::TextColumn(column) => column,
        _ => {
            return Err(ExtractError::ArgumentType(Expected::TextColumn));
        },
    };
    let pattern = match &args[1] {
        Argument::TextScalar(Some(text)) => text,
        _ => {
            return Err(ExtractError::ArgumentType(Expected::PatternText));
        },
    };
    let group_index = match &args[2] {
        Argument::UIntScalar(Some(number)) => *number as usize,
        _ => {
            return Err(ExtractError::ArgumentType(Expected::GroupIndex));
        },
    };
    regexp_extract(input, pattern.as_str(), group_index)
}

/// The kind of a value that the function takes or returns.
#[derive(Clone, Copy, Debug, PartialEq, Eq, Structural)]
pub enum ValueKind {
    /// Text.
    Text,
    /// An unsigned 32-bit integer.
    UInt32,
}

/// How far an engine may rely on a function giving the same result again.
#[derive(Clone, Copy, Debug, PartialEq, Eq, Structural)]
pub enum Volatility {
    /// The same arguments always give the same result.
    Immutable,
    /// The same arguments give the same result within one query.
    Stable,
    /// The result may change from one evaluation to the next.
    Volatile,
}

/// The declaration under which an engine registers a scalar function.
#[derive(Debug, PartialEq, Eq)]
pub struct ScalarFunction {
    /// The name by which queries call the function.
    pub name: String,
    /// The kind of each positional argument.
    pub argument_kinds: Vec<ValueKind>,
    /// The kind of the values in the returned column.
    pub return_kind: ValueKind,
    /// What the engine may assume about repeated calls.
    pub volatility: Volatility,
}

/// A [`ScalarFunction`] as a mathematical value.
pub struct ScalarFunctionView {
    pub name: Seq<char>,
    pub argument_kinds: Seq<ValueKind>,
    pub return_kind: ValueKind,
    pub volatility: Volatility,
}

impl View for ScalarFunction {
    type V = ScalarFunctionView;

    open spec fn view(&self) -> ScalarFunctionView {
        ScalarFunctionView {
            name: self.name@,
            argument_kinds: self.argument_kinds@,
            return_kind: self.return_kind,
            volatility: self.volatility,
        }
    }
}

/// The kind that an argument counts as in a declaration, if it has one.
pub open spec fn kind_of(arg: ArgumentView) -> Option<ValueKind> {
    match arg {
        ArgumentView::TextColumn(_) => Some(ValueKind::Text),
        ArgumentView::TextScalar(_) => Some(ValueKind::Text),
        ArgumentView::UIntScalar(_) => Some(ValueKind::UInt32),
        ArgumentView::Other => None,
    }
}

/// The argument kinds that the function is declared with: the input column,
/// the pattern, the group index.
pub open spec fn declared_kinds() -> Seq<ValueKind> {
    seq![ValueKind::Text, ValueKind::Text, ValueKind::UInt32]
}

/// The declaration of the function: it is called `regexp_extract`, takes a
/// text column, a pattern text and an unsigned group index, returns text,
/// and is immutable.
pub open spec fn declaration_spec() -> ScalarFunctionView {
    ScalarFunctionView {
        name: "regexp_extract"@,
        argument_kinds: declared_kinds(),
        return_kind: ValueKind::Text,
        volatility: Volatility::Immutable,
    }
}

/// Declares the function to an engine: its name, the kinds of its three
/// arguments, the kind it returns, and that it is immutable, so that an
/// engine may fold or cache its results. Its implementation is [`apply`].
pub fn declaration() -> (function: ScalarFunction)
    ensures
        function@ == declaration_spec(),
{
    let mut argument_kinds: Vec<ValueKind> = Vec::new();
    argument_kinds.push(ValueKind::Text);
    argument_kinds.push(ValueKind::Text);
    argument_kinds.push(ValueKind::UInt32);
    assert(argument_kinds@ =~= declared_kinds());
    ScalarFunction {
        name: "regexp_extract".to_owned(),
        argument_kinds,
        return_kind: ValueKind::Text,
        volatility: Volatility::Immutable,
    }
}

} // verus!
