//! The response envelope.
//!
//! Every response body is one of two shapes, told apart by structure alone:
//! an object with an `error` member carries the broker's error, any other
//! object must carry the payload under `data`. The HTTP status plays no part.

use vstd::prelude::*;
use crate::decode::{field, field_decoded, field_failure, Decode};
use crate::error::{BrokerError, DecodeError, Error};
use crate::json::{document, Json};

verus! {

impl Decode for BrokerError {
    open spec fn failure(j: Json) -> Option<Error> {
        if field_failure::<String>(j, "code") is Some {
            field_failure::<String>(j, "code")
        } else if field_failure::<String>(j, "message") is Some {
            field_failure::<String>(j, "message")
        } else {
            None
        }
    }

    open spec fn decoded_from(&self, j: Json) -> bool {
        &&& field_decoded::<String>(&self.code, j, "code")
        &&& field_decoded::<String>(&self.message, j, "message")
    }

    fn decode(j: &Json) -> (r: Result<Self, Error>) {
        let code = match field::<String>(j, "code") {
            Ok(v) => v,
            Err(e) => return Err(e),
        };
        let message = match field::<String>(j, "message") {
            Ok(v) => v,
            Err(e) => return Err(e),
        };
        Ok(BrokerError { code, message })
    }
}

/// A decoded response body: the payload, or the broker's error.
#[derive(Debug, Clone, PartialEq, Eq)]
pub enum Envelope<T> {
    Success(T),
    Failure(BrokerError),
}

/// The error of a body that is neither shape.
pub open spec fn no_envelope() -> Error {
    Error::Decode(DecodeError::NoEnvelope)
}

impl<T: Decode> Decode for Envelope<T> {
    open spec fn failure(j: Json) -> Option<Error> {
        if j.member("error"@) is Some {
            field_failure::<BrokerError>(j, "error")
        } else if j.member("data"@) is Some {
            field_failure::<T>(j, "data")
        } else {
            Some(no_envelope())
        }
    }

    open spec fn decoded_from(&self, j: Json) -> bool {
        if j.member("error"@) is Some {
            self matches Envelope::Failure(b) && field_decoded::<BrokerError>(&b, j, "error")
        } else {
            self matches Envelope::Success(v) && field_decoded::<T>(&v, j, "data")
        }
    }

    fn decode(j: &Json) -> (r: Result<Self, Error>) {
        if j.get("error").is_some() {
            match field::<BrokerError>(j, "error") {
                Ok(b) => Ok(Envelope::Failure(b)),
                Err(e) => Err(e),
            }
        } else if j.get("data").is_some() {
            match field::<T>(j, "data") {
                Ok(v) => Ok(Envelope::Success(v)),
                Err(e) => Err(e),
            }
        } else {
            Err(Error::Decode(DecodeError::NoEnvelope))
        }
    }
}

impl<T> Envelope<T> {
    /// The payload of a success, or the broker's error as the crate's error.
    pub fn into_result(self) -> (r: Result<T, Error>)
        ensures
            match self {
                Envelope::Success(v) => r == Ok::<T, Error>(v),
                Envelope::Failure(b) => r == Err::<T, Error>(Error::Broker(b)),
            },
    {
        match self {
            Envelope::Success(v) => Ok(v),
            Envelope::Failure(b) => Err(Error::Broker(b)),
        }
    }
}

/// Whether `r` is what the response document `j` comes to: the broker's
/// error where `j` has an `error` member, else the decoded payload, else the
/// error of the first thing that fails to decode.
pub open spec fn settles<T: Decode>(j: Json, r: Result<T, Error>) -> bool {
    match Envelope::<T>::failure(j) {
        Some(e) => r == Err::<T, Error>(e),
        None => if j.member("error"@) is Some {
            r matches Err(Error::Broker(b)) && field_decoded::<BrokerError>(&b, j, "error")
        } else {
            r matches Ok(v) && field_decoded::<T>(&v, j, "data")
        },
    }
}

/// A document with an `error` member never comes to a payload, whatever else
/// it holds: it comes to the broker's error where that member decodes, and
/// to the member's decode error where it does not.
pub proof fn lemma_error_member_decides<T: Decode>(j: Json, r: Result<T, Error>)
    requires
        j.member("error"@) is Some,
        settles::<T>(j, r),
    ensures
        r is Err,
        (r matches Err(Error::Broker(_))) <== BrokerError::failure(j.member("error"@)->Some_0) is None,
        BrokerError::failure(j.member("error"@)->Some_0) matches Some(e) ==> r == Err::<T, Error>(e.within("error")),
{
}

/// A document without an `error` member comes to its decoded payload, or
/// to the error of what fails to decode: a missing `data` member, or the
/// payload's own failure.
pub proof fn lemma_no_error_member<T: Decode>(j: Json, r: Result<T, Error>)
    requires
        j.member("error"@) is None,
        settles::<T>(j, r),
    ensures
        r matches Ok(v) ==> j.member("data"@) matches Some(d) && T::failure(d) is None && v.decoded_from(d),
        r matches Err(e) ==> (if j.member("data"@) is None {
            e == no_envelope()
        } else {
            T::failure(j.member("data"@)->Some_0) matches Some(f) && e == f.within("data")
        }),
{
}

/// Takes a response document through the envelope.
pub fn unwrap_document<T: Decode>(j: &Json) -> (r: Result<T, Error>)
    ensures
        settles::<T>(*j, r),
{
    match Envelope::<T>::decode(j) {
        Ok(envelope) => envelope.into_result(),
        Err(e) => Err(e),
    }
}

/// Takes a raw response body through the envelope: `Malformed` where the
/// body is no JSON document, else what the document comes to.
pub fn receive<T: Decode>(body: &str) -> (r: Result<T, Error>)
    ensures
        match document(body@) {
            None => r == Err::<T, Error>(Error::Decode(DecodeError::Malformed)),
            Some(j) => settles::<T>(j, r),
        },
{
    match Json::parse(body) {
        None => Err(Error::Decode(DecodeError::Malformed)),
        Some(j) => unwrap_document::<T>(&j),
    }
}

} // verus!
