//! What can go wrong while a form is filled.

use crate::format::{format_name, OutputFormat};
use vstd::prelude::*;
use vstd::string::StringExecFns;

verus! {

/// Why a form template refused a value.
#[derive(Debug, Clone, Copy, PartialEq, Eq, Structural)]
pub enum ValueError {
    /// The field is not a text field.
    TypeMismatch,
    /// The template has no field at that position.
    NotFound,
}

/// An error of the form template.
#[derive(Debug, Clone, Copy, PartialEq, Eq, Structural)]
pub enum PdfErrorKind {
    /// The template refused a value.
    Value(ValueError),
}

/// An error that the user can mend.
#[derive(Debug, PartialEq, Eq)]
pub enum UserErrorKind {
    /// The chosen output format is not offered for this kind of output.
    UnsupportedOutputFormat(OutputFormat),
    /// A part of the configuration is missing: what it is, and the argument
    /// that provides it.
    MissingConfig(String, String),
    /// Anything else, in words.
    Generic(String),
}

/// Any error of the library.
#[derive(Debug, PartialEq, Eq)]
pub enum Error {
    /// The form template refused an operation.
    Pdf(PdfErrorKind),
    /// The request cannot be met as it stands.
    UserError(UserErrorKind),
    /// A form holds something that it should not, in words.
    UnexpectedCondition(String),
    /// The form has no free row left for another income line.
    RowLimitExceeded,
    /// The form holds no income line, so it has no totals.
    NoIncomeRecorded,
    /// An amount does not fit the decimal arithmetic.
    AmountOverflow,
}

/// What a user error is to the contracts.
pub enum UserErrorView {
    UnsupportedOutputFormat(OutputFormat),
    MissingConfig(Seq<char>, Seq<char>),
    Generic(Seq<char>),
}

/// What an error is to the contracts.
pub enum ErrorView {
    Pdf(PdfErrorKind),
    UserError(UserErrorView),
    UnexpectedCondition(Seq<char>),
    RowLimitExceeded,
    NoIncomeRecorded,
    AmountOverflow,
}

impl View for UserErrorKind {
    type V = UserErrorView;

    open spec fn view(&self) -> UserErrorView {
        match *self {
            UserErrorKind::UnsupportedOutputFormat(format) => UserErrorView::UnsupportedOutputFormat(
                format,
            ),
            UserErrorKind::MissingConfig(config_name, argument) => UserErrorView::MissingConfig(
                config_name@,
                argument@,
            ),
            UserErrorKind::Generic(message) => UserErrorView::Generic(message@),
        }
    }
}

impl View for Error {
    type V = ErrorView;

    open spec fn view(&self) -> ErrorView {
        match *self {
            Error::Pdf(inner) => ErrorView::Pdf(inner),
            Error::UserError(inner) => ErrorView::UserError(inner@),
            Error::UnexpectedCondition(message) => ErrorView::UnexpectedCondition(message@),
            Error::RowLimitExceeded => ErrorView::RowLimitExceeded,
            Error::NoIncomeRecorded => ErrorView::NoIncomeRecorded,
            Error::AmountOverflow => ErrorView::AmountOverflow,
        }
    }
}

/// The message of a template error.
pub open spec fn value_error_text(e: ValueError) -> Seq<char> {
    match e {
        ValueError::TypeMismatch => "Field is not a text field"@,
        ValueError::NotFound => "Field not found"@,
    }
}

/// The message of a user error.
pub open spec fn user_error_text(e: UserErrorView) -> Seq<char> {
    match e {
        UserErrorView::UnsupportedOutputFormat(format) => "Unsupported output format: "@
            + format_name(format),
        UserErrorView::MissingConfig(config_name, argument) => "Missing "@ + config_name
            + ". Try to provide it with "@ + argument,
        UserErrorView::Generic(message) => message,
    }
}

/// The message of an error.
pub open spec fn error_text(e: ErrorView) -> Seq<char> {
    match e {
        ErrorView::Pdf(PdfErrorKind::Value(inner)) => value_error_text(inner),
        ErrorView::UserError(inner) => user_error_text(inner),
        ErrorView::UnexpectedCondition(message) => message,
        ErrorView::RowLimitExceeded => "The form has no free row left"@,
        ErrorView::NoIncomeRecorded => "No income was recorded"@,
        ErrorView::AmountOverflow => "Amount is out of range"@,
    }
}

impl ValueError {
    /// The message of the error.
    pub fn message(&self) -> (s: String)
        ensures
            s@ == value_error_text(*self),
    {
        match self {
            ValueError::TypeMismatch => String::from_str("Field is not a text field"),
            ValueError::NotFound => String::from_str("Field not found"),
        }
    }
}

impl PdfErrorKind {
    /// The message of the error.
    pub fn message(&self) -> (s: String)
        ensures
            s@ == error_text(ErrorView::Pdf(*self)),
    {
        match self {
            PdfErrorKind::Value(inner) => inner.message(),
        }
    }
}

impl UserErrorKind {
    /// The message of the error.
    pub fn message(&self) -> (s: String)
        ensures
            s@ == user_error_text(self@),
    {
        match self {
            UserErrorKind::UnsupportedOutputFormat(format) => {
                let mut s = String::from_str("Unsupported output format: ");
                s.append(format.name());
                s
            },
            UserErrorKind::MissingConfig(config_name, argument) => {
                let mut s = String::from_str("Missing ");
                s.append(config_name.as_str());
                s.append(". Try to provide it with ");
                s.append(argument.as_str());
                s
            },
            UserErrorKind::Generic(message) => message.clone(),
        }
    }
}

impl Error {
    /// The message of the error.
    pub fn message(&self) -> (s: String)
        ensures
            s@ == error_text(self@),
    {
        match self {
            Error::Pdf(inner) => inner.message(),
            Error::UserError(inner) => inner.message(),
            Error::UnexpectedCondition(message) => message.clone(),
            Error::RowLimitExceeded => String::from_str("The form has no free row left"),
            Error::NoIncomeRecorded => String::from_str("No income was recorded"),
            Error::AmountOverflow => String::from_str("Amount is out of range"),
        }
    }
}

} // verus!
