//! The closed set of parse failures and the sentence each one renders to.
use vstd::prelude::*;
use vstd::string::StringExecFns;

verus! {

/// A reason why a command line could not be parsed.
#[derive(Debug, Clone, PartialEq, Eq)]
pub enum DBError {
    /// The line holds no token.
    EmptyInput,
    /// A `GET` or `SET` line holds no key.
    KeyNotFound,
    /// A `SET` line holds no value.
    ValueNotFound,
    /// The first token names no known command; it carries that token.
    UnexpectedCommand(String),
}

/// The mathematical form of a [`DBError`].
pub enum ErrorModel {
    EmptyInput,
    KeyNotFound,
    ValueNotFound,
    UnexpectedCommand(Seq<char>),
}

impl View for DBError {
    type V = ErrorModel;

    open spec fn view(&self) -> ErrorModel {
        match self {
            DBError::EmptyInput => ErrorModel::EmptyInput,
            DBError::KeyNotFound => ErrorModel::KeyNotFound,
            DBError::ValueNotFound => ErrorModel::ValueNotFound,
            DBError::UnexpectedCommand(c) => ErrorModel::UnexpectedCommand(c@),
        }
    }
}

/// The sentence that describes an error.
pub open spec fn error_message(e: ErrorModel) -> Seq<char> {
    match e {
        ErrorModel::EmptyInput => "Empty input received!"@,
        ErrorModel::KeyNotFound => "Key not found!"@,
        ErrorModel::ValueNotFound => "Value not found!"@,
        ErrorModel::UnexpectedCommand(c) => "Unexpected command: "@ + c,
    }
}

impl DBError {
    /// Renders the error as a human-readable sentence.
    pub fn message(&self) -> (r: String)
        ensures
            r@ == error_message(self@),
    {
        match self {
            DBError::EmptyInput => String::from_str("Empty input received!"),
            DBError::KeyNotFound => String::from_str("Key not found!"),
            DBError::ValueNotFound => String::from_str("Value not found!"),
            DBError::UnexpectedCommand(c) => String::from_str("Unexpected command: ").concat(
                c.as_str(),
            ),
        }
    }
}

} // verus!
