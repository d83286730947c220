//! Decoding of JSON values into typed values.
//!
//! A type that can be decoded says, for every JSON value, whether decoding
//! fails and with which error, and which of its values a JSON value decodes
//! to. Records are decoded field by field, in the order of their wire keys;
//! the first field that fails gives the error.

use vstd::prelude::*;
use crate::count::{count_of, parse_count};
use crate::decimal::Amount;
use crate::error::{DecodeError, Error};
use crate::json::Json;

verus! {

/// A type with a wire form in JSON.
pub trait Decode: Sized {
    /// The error with which decoding `j` fails; `None` where it succeeds.
    spec fn failure(j: Json) -> Option<Error>;

    /// Whether `self` is what `j` decodes to.
    spec fn decoded_from(&self, j: Json) -> bool;

    /// Decodes `j`: a value that `j` decodes to, or the error `failure` names.
    fn decode(j: &Json) -> (r: Result<Self, Error>)
        ensures
            r matches Ok(v) ==> Self::failure(*j) is None && v.decoded_from(*j),
            r matches Err(e) ==> Self::failure(*j) == Some(e),
    ;
}

/// The error of a value that has the wrong JSON kind or is no decimal.
pub open spec fn mismatch() -> Error {
    Error::Decode(DecodeError::Mismatch)
}

impl Decode for String {
    open spec fn failure(j: Json) -> Option<Error> {
        if j is Text {
            None
        } else {
            Some(mismatch())
        }
    }

    open spec fn decoded_from(&self, j: Json) -> bool {
        j matches Json::Text(s) && self@ == s@
    }

    fn decode(j: &Json) -> (r: Result<Self, Error>) {
        match j {
            Json::Text(s) => Ok(s.clone()),
            _ => Err(Error::Decode(DecodeError::Mismatch)),
        }
    }
}

impl Decode for bool {
    open spec fn failure(j: Json) -> Option<Error> {
        if j is Bool {
            None
        } else {
            Some(mismatch())
        }
    }

    open spec fn decoded_from(&self, j: Json) -> bool {
        j == Json::Bool(*self)
    }

    fn decode(j: &Json) -> (r: Result<Self, Error>) {
        match j {
            Json::Bool(b) => Ok(*b),
            _ => Err(Error::Decode(DecodeError::Mismatch)),
        }
    }
}

/// The unsigned integer that a JSON value writes: that of a number's text.
pub open spec fn count_in(j: Json) -> Option<u64> {
    match j {
        Json::Number(n) => count_of(n@),
        _ => None,
    }
}

impl Decode for u64 {
    open spec fn failure(j: Json) -> Option<Error> {
        if count_in(j) is Some {
            None
        } else {
            Some(mismatch())
        }
    }

    open spec fn decoded_from(&self, j: Json) -> bool {
        count_in(j) == Some(*self)
    }

    fn decode(j: &Json) -> (r: Result<Self, Error>) {
        match j {
            Json::Number(n) => match parse_count(n.as_str()) {
                Some(c) => Ok(c),
                None => Err(Error::Decode(DecodeError::Mismatch)),
            },
            _ => Err(Error::Decode(DecodeError::Mismatch)),
        }
    }
}

/// The amount that a JSON value writes: that of a string's or a number's
/// text, whichever policy the field has.
pub open spec fn amount_in(j: Json) -> Option<Amount> {
    match j {
        Json::Text(s) => Amount::of_text(s@),
        Json::Number(n) => Amount::of_text(n@),
        _ => None,
    }
}

impl Decode for Amount {
    open spec fn failure(j: Json) -> Option<Error> {
        if amount_in(j) is Some {
            None
        } else {
            Some(mismatch())
        }
    }

    open spec fn decoded_from(&self, j: Json) -> bool {
        amount_in(j) == Some(*self) && self.well_formed()
    }

    fn decode(j: &Json) -> (r: Result<Self, Error>) {
        let parsed = match j {
            Json::Text(s) => Amount::parse(s.as_str()),
            Json::Number(n) => Amount::parse(n.as_str()),
            _ => None,
        };
        match parsed {
            Some(a) => Ok(a),
            None => Err(Error::Decode(DecodeError::Mismatch)),
        }
    }
}

/// The error of the first item at or after position `from` that fails to
/// decode; `None` where every one of them decodes.
pub open spec fn item_failure<T: Decode>(items: Seq<Json>, from: int) -> Option<Error>
    decreases items.len() - from,
{
    if from < 0 || from >= items.len() {
        None
    } else if T::failure(items[from]) is Some {
        T::failure(items[from])
    } else {
        item_failure::<T>(items, from + 1)
    }
}

/// A list none of whose items fails does not fail.
pub proof fn lemma_no_item_fails<T: Decode>(items: Seq<Json>, from: int)
    requires
        0 <= from,
        forall|k: int| from <= k < items.len() ==> T::failure(#[trigger] items[k]) is None,
    ensures
        item_failure::<T>(items, from) is None,
    decreases items.len() - from,
{
    if from < items.len() {
        lemma_no_item_fails::<T>(items, from + 1);
    }
}

/// The failure of a list is the failure of its first failing item: some
/// item fails with that error, and no item before it fails.
pub proof fn lemma_item_failure_is_first<T: Decode>(items: Seq<Json>, from: int) -> (at: int)
    requires
        0 <= from,
        item_failure::<T>(items, from) is Some,
    ensures
        from <= at < items.len(),
        T::failure(items[at]) == item_failure::<T>(items, from),
        forall|k: int| from <= k < at ==> T::failure(#[trigger] items[k]) is None,
    decreases items.len() - from,
{
    if T::failure(items[from]) is Some {
        from
    } else {
        lemma_item_failure_is_first::<T>(items, from + 1)
    }
}

impl<T: Decode> Decode for Vec<T> {
    open spec fn failure(j: Json) -> Option<Error> {
        match j {
            Json::Array(items) => item_failure::<T>(items@, 0),
            _ => Some(mismatch()),
        }
    }

    open spec fn decoded_from(&self, j: Json) -> bool {
        j matches Json::Array(items) && self@.len() == items@.len() && forall|k: int|
            0 <= k < items@.len() ==> (#[trigger] self@[k]).decoded_from(items@[k])
    }

    fn decode(j: &Json) -> (r: Result<Self, Error>) {
        match j {
            Json::Array(items) => {
                let mut out: Vec<T> = Vec::new();
                let mut i: usize = 0;
                while i < items.len()
                    invariant
                        i <= items.len(),
                        out@.len() == i,
                        *j == Json::Array(*items),
                        item_failure::<T>(items@, 0) == item_failure::<T>(items@, i as int),
                        forall|k: int| 0 <= k < i ==> (#[trigger] out@[k]).decoded_from(items@[k]),
                    decreases items.len() - i,
                {
                    match T::decode(&items[i]) {
                        Ok(v) => {
                            out.push(v);
                        },
                        Err(e) => {
                            return Err(e);
                        },
                    }
                    i += 1;
                }
                Ok(out)
            },
            _ => Err(Error::Decode(DecodeError::Mismatch)),
        }
    }
}

/// The error with which decoding the field `key` of `j` fails: the field is
/// absent, or its value fails to decode; `None` where it decodes.
pub open spec fn field_failure<T: Decode>(j: Json, key: &'static str) -> Option<Error> {
    match j.member(key@) {
        None => Some(Error::Decode(DecodeError::Field { key })),
        Some(v) => match T::failure(v) {
            Some(e) => Some(e.within(key)),
            None => None,
        },
    }
}

/// Whether `value` is what the field `key` of `j` decodes to.
pub open spec fn field_decoded<T: Decode>(value: &T, j: Json, key: &'static str) -> bool {
    j.member(key@) matches Some(v) && value.decoded_from(v)
}

/// Decodes the field `key` of the object `j`.
pub fn field<T: Decode>(j: &Json, key: &'static str) -> (r: Result<T, Error>)
    ensures
        r matches Ok(v) ==> field_failure::<T>(*j, key) is None && field_decoded::<T>(&v, *j, key),
        r matches Err(e) ==> field_failure::<T>(*j, key) == Some(e),
{
    match j.get(key) {
        None => Err(Error::Decode(DecodeError::Field { key })),
        Some(v) => match T::decode(v) {
            Ok(x) => Ok(x),
            Err(e) => Err(e.at(key)),
        },
    }
}

} // verus!
