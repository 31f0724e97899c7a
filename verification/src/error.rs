//! The two ways in which a call can fail. Both are found before any row is
//! looked at; no row can fail.
use vstd::prelude::*;

verus! {

/// What a call expected and did not get.
#[derive(Clone, Copy, Debug, PartialEq, Eq, Structural)]
pub enum Expected {
    /// Exactly three arguments.
    ArgumentCount,
    /// A text column as the first argument.
    TextColumn,
    /// A single text that is not null as the second argument.
    PatternText,
    /// A single unsigned integer that is not null as the third argument.
    GroupIndex,
}

impl Expected {
    /// The words in which the requirement is reported.
    pub open spec fn text(self) -> Seq<char> {
        match self {
            Expected::ArgumentCount => "Expected 3 arguments"@,
            Expected::TextColumn => "Expected StringArray"@,
            Expected::PatternText => "Expected pattern string"@,
            Expected::GroupIndex => "Expected UInt32"@,
        }
    }

    /// The requirement in words.
    pub fn message(&self) -> (text: String)
        ensures
            text@ == self.text(),
    {
        match self {
            Expected::ArgumentCount => "Expected 3 arguments".to_owned(),
            Expected::TextColumn => "Expected StringArray".to_owned(),
            Expected::PatternText => "Expected pattern string".to_owned(),
            Expected::GroupIndex => "Expected UInt32".to_owned(),
        }
    }
}

/// Why a call produced no column.
#[derive(Debug, PartialEq, Eq)]
pub enum ExtractError {
    /// The arguments are not three, or one of them is of the wrong kind.
    ArgumentType(Expected),
    /// The pattern is not a regular expression that can be compiled. Holds
    /// the compiler's message.
    PatternCompile(String),
}

/// An [`ExtractError`] as a mathematical value.
pub enum ExtractErrorView {
    ArgumentType(Expected),
    PatternCompile(Seq<char>),
}

impl ExtractErrorView {
    /// The words in which the error is reported.
    pub open spec fn message(self) -> Seq<char> {
        match self {
            ExtractErrorView::ArgumentType(expected) => expected.text(),
            ExtractErrorView::PatternCompile(message) => message,
        }
    }
}

impl View for ExtractError {
    type V = ExtractErrorView;

    open spec fn view(&self) -> ExtractErrorView {
        match self {
            ExtractError::ArgumentType(expected) => ExtractErrorView::ArgumentType(*expected),
            ExtractError::PatternCompile(message) => ExtractErrorView::PatternCompile(message@),
        }
    }
}

impl Clone for ExtractError {
    fn clone(&self) -> (copy: Self)
        ensures
            copy@ == self@,
    {
        match self {
            ExtractError::ArgumentType(expected) => ExtractError::ArgumentType(*expected),
            ExtractError::PatternCompile(message) => ExtractError::PatternCompile(message.clone()),
        }
    }
}

impl ExtractError {
    /// The error in words: the requirement that was not met, or the
    /// compiler's message.
    pub fn message(&self) -> (text: String)
        ensures
            text@ == self@.message(),
    {
        match self {
            ExtractError::ArgumentType(expected) => expected.message(),
            ExtractError::PatternCompile(message) => message.clone(),
        }
    }
}

} // verus!
