//! The failures that builders report.

use vstd::prelude::*;

verus! {

/// Why a builder could not make or change a value.
#[derive(Debug, Clone, Copy)]
pub enum Error {
    /// A field that the class needs was not set.
    FieldNotSet { class: &'static str, field: &'static str },
    /// A field was set before another that it depends on.
    FieldNotSetFirst { class: &'static str, field: &'static str, required_field: &'static str },
}

/// An error as a mathematical value: the names it carries, as texts.
pub enum ErrorView {
    FieldNotSet { class: Seq<char>, field: Seq<char> },
    FieldNotSetFirst { class: Seq<char>, field: Seq<char>, required_field: Seq<char> },
}

impl View for Error {
    type V = ErrorView;

    open spec fn view(&self) -> ErrorView {
        match self {
            Error::FieldNotSet { class, field } => ErrorView::FieldNotSet {
                class: class@,
                field: field@,
            },
            Error::FieldNotSetFirst { class, field, required_field } => ErrorView::FieldNotSetFirst {
                class: class@,
                field: field@,
                required_field: required_field@,
            },
        }
    }
}

/// The error for a field that a class misses.
pub open spec fn field_not_set(class: &str, field: &str) -> ErrorView {
    ErrorView::FieldNotSet { class: class@, field: field@ }
}

} // verus!
