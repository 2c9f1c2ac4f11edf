//! The closed set of failures a query or a command can end in.

use vstd::prelude::*;
use vstd::string::*;

verus! {

/// Why a query or a command failed.
#[derive(Debug, Clone, PartialEq, Eq)]
pub enum Error {
    /// The resource is absent, or no row matches the slug.
    NotFound,
    /// The caller is not allowed to do this.
    Forbidden,
    /// One named input was rejected.
    Validation { field: String, message: String },
    /// A failure of the application that belongs to no single input.
    Application { message: String },
    /// The database or the network failed underneath.
    Transport { message: String },
}

/// The mathematical value of an [`Error`].
pub ghost enum ErrorView {
    NotFound,
    Forbidden,
    Validation { field: Seq<char>, message: Seq<char> },
    Application { message: Seq<char> },
    Transport { message: Seq<char> },
}

impl View for Error {
    type V = ErrorView;

    open spec fn view(&self) -> ErrorView {
        match *self {
            Error::NotFound => ErrorView::NotFound,
            Error::Forbidden => ErrorView::Forbidden,
            Error::Validation { field, message } => ErrorView::Validation {
                field: field@,
                message: message@,
            },
            Error::Application { message } => ErrorView::Application { message: message@ },
            Error::Transport { message } => ErrorView::Transport { message: message@ },
        }
    }
}

impl ErrorView {
    /// The text shown to the person who made the request.
    pub open spec fn message(self) -> Seq<char> {
        match self {
            ErrorView::NotFound => "Not found"@,
            ErrorView::Forbidden => "Forbidden"@,
            ErrorView::Validation { field, message } => message,
            ErrorView::Application { message } => message,
            ErrorView::Transport { message } => message,
        }
    }
}

impl Error {
    /// An application failure with the given text.
    pub fn application(text: &str) -> (e: Error)
        ensures
            e@ == (ErrorView::Application { message: text@ }),
    {
        Error::Application { message: String::from_str(text) }
    }

    /// A transport failure with the given text.
    pub fn transport(text: String) -> (e: Error)
        ensures
            e@ == (ErrorView::Transport { message: text@ }),
    {
        Error::Transport { message: text }
    }

    /// The text shown to the person who made the request.
    pub fn message(&self) -> (text: String)
        ensures
            text@ == self@.message(),
    {
        match self {
            Error::NotFound => String::from_str("Not found"),
            Error::Forbidden => String::from_str("Forbidden"),
            Error::Validation { field: _, message } => message.clone(),
            Error::Application { message } => message.clone(),
            Error::Transport { message } => message.clone(),
        }
    }

    /// A copy with the same value.
    pub fn duplicate(&self) -> (e: Error)
        ensures
            e@ == self@,
    {
        match self {
            Error::NotFound => Error::NotFound,
            Error::Forbidden => Error::Forbidden,
            Error::Validation { field, message } => Error::Validation {
                field: field.clone(),
                message: message.clone(),
            },
            Error::Application { message } => Error::Application { message: message.clone() },
            Error::Transport { message } => Error::Transport { message: message.clone() },
        }
    }
}

} // verus!
