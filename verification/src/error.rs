//! The errors that construction and validation report.

use crate::decimal::{decimal, decimal_text};
use vstd::prelude::*;
use vstd::string::*;

verus! {

/// Why a client could not be constructed.
#[derive(Clone, Copy, Debug, PartialEq, Eq, Structural)]
pub enum ClientError {
    /// The service name is not one of the storage services.
    Configuration,
    /// The composed address is not a valid URL.
    UrlConstruction,
}

/// Why a payload was refused before any request was built.
#[derive(Clone, Copy, Debug, PartialEq, Eq, Structural)]
pub enum ValidationError {
    /// A page payload whose length, carried here, is not a multiple of the page size.
    InvalidPayloadAlignment(usize),
    /// An upload was asked of the undetermined kind.
    UndeterminedKind,
}

impl ClientError {
    /// What the error says.
    pub open spec fn message_text(self) -> Seq<char> {
        match self {
            ClientError::Configuration => "Not a valid service."@,
            ClientError::UrlConstruction => "Something went wrong with URL parsing!"@,
        }
    }

    /// What the error says, for a report.
    pub fn message(&self) -> (text: String)
        ensures
            text@ == self.message_text(),
    {
        match self {
            ClientError::Configuration => String::from_str("Not a valid service."),
            ClientError::UrlConstruction => String::from_str(
                "Something went wrong with URL parsing!",
            ),
        }
    }
}

impl ValidationError {
    /// What the error says; for a misaligned payload it ends with the
    /// payload's length in decimal.
    pub open spec fn message_text(self) -> Seq<char> {
        match self {
            ValidationError::InvalidPayloadAlignment(length) =>
                "Data length is not divisible by 512. Data len:"@ + decimal_text(length as nat),
            ValidationError::UndeterminedKind => "The blob kind is not determined."@,
        }
    }

    /// What the error says, for a report.
    pub fn message(&self) -> (text: String)
        ensures
            text@ == self.message_text(),
    {
        match self {
            ValidationError::InvalidPayloadAlignment(length) => {
                let mut text = String::from_str("Data length is not divisible by 512. Data len:");
                let digits = decimal(*length);
                text.append(digits.as_str());
                text
            },
            ValidationError::UndeterminedKind => String::from_str(
                "The blob kind is not determined.",
            ),
        }
    }
}

} // verus!
