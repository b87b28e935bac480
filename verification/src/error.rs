//! The failures that ledger operations report.

use vstd::prelude::*;
use vstd::string::StringExecFns;

verus! {

/// Why a ledger operation failed. Lookups and postings report one of these and
/// leave the ledger as it was.
#[derive(Debug)]
pub enum Error {
    /// No cause is known.
    Unspecified,
    /// A failure described by its text.
    Generic(String),
    /// No account is paired with the definition that the text names.
    AccountNotFound(String),
    /// No definition has the name or identifier that the text gives.
    DefinitionNotFound(String),
}

impl Error {
    /// What a reader is told of an error.
    pub open spec fn message_text(self) -> Seq<char> {
        match self {
            Error::Unspecified => "An unspecified error occured."@,
            Error::Generic(text) => text@,
            Error::AccountNotFound(text) => "The Account could not be found: "@ + text@,
            Error::DefinitionNotFound(text) => "The Account Definition could not be found: "@
                + text@,
        }
    }

    /// The message for a reader.
    pub fn message(&self) -> (text: String)
        ensures
            text@ == self.message_text(),
    {
        match self {
            Error::Unspecified => String::from_str("An unspecified error occured."),
            Error::Generic(text) => text.clone(),
            Error::AccountNotFound(text) => String::from_str(
                "The Account could not be found: ",
            ).concat(text.as_str()),
            Error::DefinitionNotFound(text) => String::from_str(
                "The Account Definition could not be found: ",
            ).concat(text.as_str()),
        }
    }
}

} // verus!
