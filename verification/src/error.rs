//! The failures of the library's operations.

use vstd::prelude::*;

verus! {

/// The mathematical model of an [`Error`].
pub enum ErrorView {
    UnsupportedLanguage { name: Seq<char> },
    ParseError { message: Seq<char> },
    PatternCompileError { message: Seq<char> },
    InvalidStrictness { value: Seq<char> },
    NoRootMatch,
}

/// Why an operation produced no result. Each failure names the stage at
/// which it arose.
#[derive(Debug, PartialEq, Eq)]
pub enum Error {
    /// Language resolution: no language is registered under the name.
    UnsupportedLanguage { name: String },
    /// Parsing: the parser could not build a tree for the source text.
    ParseError { message: String },
    /// Pattern compilation: the pattern text could not be compiled; the
    /// message is the engine's diagnostic.
    PatternCompileError { message: String },
    /// Strictness parsing: the value is not the name of a strictness.
    InvalidStrictness { value: String },
    /// Matching: the compiled pattern matches nowhere in the document.
    NoRootMatch,
}

impl View for Error {
    type V = ErrorView;

    open spec fn view(&self) -> ErrorView {
        match self {
            Error::UnsupportedLanguage { name } => ErrorView::UnsupportedLanguage { name: name@ },
            Error::ParseError { message } => ErrorView::ParseError { message: message@ },
            Error::PatternCompileError { message } => ErrorView::PatternCompileError {
                message: message@,
            },
            Error::InvalidStrictness { value } => ErrorView::InvalidStrictness { value: value@ },
            Error::NoRootMatch => ErrorView::NoRootMatch,
        }
    }
}

impl ErrorView {
    /// The text that tells a person which stage failed, and on what.
    pub open spec fn message(self) -> Seq<char> {
        match self {
            ErrorView::UnsupportedLanguage { name } => "language is not registered: "@ + name,
            ErrorView::ParseError { message } => "failed to parse the source: "@ + message,
            ErrorView::PatternCompileError { message } => "failed to compile the pattern: "@
                + message,
            ErrorView::InvalidStrictness { value } => "invalid strictness: "@ + value,
            ErrorView::NoRootMatch => "pattern has no root node"@,
        }
    }
}

impl Error {
    /// The text that tells a person which stage failed, and on what.
    pub fn message(&self) -> (text: String)
        ensures
            text@ == self@.message(),
    {
        match self {
            Error::UnsupportedLanguage { name } => String::from_str(
                "language is not registered: ",
            ).concat(name.as_str()),
            Error::ParseError { message } => String::from_str(
                "failed to parse the source: ",
            ).concat(message.as_str()),
            Error::PatternCompileError { message } => String::from_str(
                "failed to compile the pattern: ",
            ).concat(message.as_str()),
            Error::InvalidStrictness { value } => String::from_str("invalid strictness: ").concat(
                value.as_str(),
            ),
            Error::NoRootMatch => String::from_str("pattern has no root node"),
        }
    }
}

} // verus!
