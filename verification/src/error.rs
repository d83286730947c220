//! The typed errors every operation of the crate reports.

use vstd::prelude::*;

verus! {

/// The broker's own structured error payload.
#[derive(Debug, Clone, PartialEq, Eq)]
pub struct BrokerError {
    pub code: String,
    pub message: String,
}

/// Why a wire value could not be decoded.
#[derive(Debug, Clone, PartialEq, Eq)]
pub enum DecodeError {
    /// The body is not a JSON document.
    Malformed,
    /// A value has the wrong JSON kind, or is no decimal, seen apart from any field.
    Mismatch,
    /// The named field is absent, or its value has the wrong JSON kind.
    Field { key: &'static str },
    /// A string that is no wire string of the named enum, and the field it
    /// stood in, where it stood in one.
    UnknownVariant { value: String, enum_name: &'static str, field: Option<&'static str> },
    /// The body is an object with neither a `data` nor an `error` member.
    NoEnvelope,
}

/// Every failure the crate can report.
#[derive(Debug, Clone, PartialEq, Eq)]
pub enum Error {
    /// The transport failed; the message is the transport's own.
    Transport(String),
    Decode(DecodeError),
    Broker(BrokerError),
    /// A builder was finished while the named field was unset.
    MissingField(&'static str),
}

impl Error {
    /// The error seen from the field `key`: a bare mismatch and an unknown
    /// variant that names no field yet are attributed to the field, every
    /// other error is kept as it is.
    pub open spec fn within(self, key: &'static str) -> Error {
        match self {
            Error::Decode(DecodeError::Mismatch) => Error::Decode(DecodeError::Field { key }),
            Error::Decode(DecodeError::UnknownVariant { value, enum_name, field: None }) => Error::Decode(
                DecodeError::UnknownVariant { value, enum_name, field: Some(key) },
            ),
            other => other,
        }
    }

    /// Attributes the error to the field `key`, unless it names one already.
    pub fn at(self, key: &'static str) -> (e: Error)
        ensures
            e == self.within(key),
    {
        match self {
            Error::Decode(DecodeError::Mismatch) => Error::Decode(DecodeError::Field { key }),
            Error::Decode(DecodeError::UnknownVariant { value, enum_name, field: None }) => Error::Decode(
                DecodeError::UnknownVariant { value, enum_name, field: Some(key) },
            ),
            other => other,
        }
    }
}

} // verus!
