//! String-backed identifiers: tickers, order ids and account numbers.

use vstd::prelude::*;
use vstd::std_specs::convert::FromSpecImpl;
use crate::decode::{mismatch, Decode};
use crate::error::{DecodeError, Error};
use crate::json::Json;

verus! {

/// An instrument ticker, ordered and hashed by its text.
#[derive(Debug, Clone, PartialEq, Eq, PartialOrd, Ord, Hash)]
pub struct Symbol(pub String);

/// A broker-assigned order identifier; no structure is assumed.
#[derive(Debug, Clone, PartialEq, Eq)]
pub struct OrderId(pub String);

/// The number of a brokerage account.
#[derive(Debug, Clone, PartialEq, Eq)]
pub struct AccountNumber(pub String);

impl Symbol {
    /// The symbol with the given ticker text.
    pub fn new(ticker: &str) -> (s: Symbol)
        ensures
            s.0@ == ticker@,
    {
        Symbol(ticker.to_owned())
    }

    /// Encodes the symbol as a JSON string.
    pub fn to_json(&self) -> (j: Json)
        ensures
            j matches Json::Text(s) && s@ == self.0@,
    {
        Json::Text(self.0.clone())
    }
}

impl From<String> for Symbol {
    fn from(value: String) -> (s: Symbol) {
        Symbol(value)
    }
}

impl FromSpecImpl<String> for Symbol {
    open spec fn obeys_from_spec() -> bool {
        true
    }

    open spec fn from_spec(value: String) -> Symbol {
        Symbol(value)
    }
}

/// Anything that names an instrument.
pub trait AsSymbol {
    /// The ticker text that the value names.
    spec fn ticker(&self) -> Seq<char>;

    /// The symbol with that ticker.
    fn as_symbol(&self) -> (s: Symbol)
        ensures
            s.0@ == self.ticker(),
    ;
}

impl AsSymbol for Symbol {
    open spec fn ticker(&self) -> Seq<char> {
        self.0@
    }

    fn as_symbol(&self) -> (s: Symbol) {
        Symbol(self.0.clone())
    }
}

impl AsSymbol for &Symbol {
    open spec fn ticker(&self) -> Seq<char> {
        self.0@
    }

    fn as_symbol(&self) -> (s: Symbol) {
        Symbol(self.0.clone())
    }
}

impl AsSymbol for String {
    open spec fn ticker(&self) -> Seq<char> {
        self@
    }

    fn as_symbol(&self) -> (s: Symbol) {
        Symbol(self.clone())
    }
}

impl AsSymbol for &str {
    open spec fn ticker(&self) -> Seq<char> {
        self@
    }

    fn as_symbol(&self) -> (s: Symbol) {
        Symbol((*self).to_owned())
    }
}

impl Decode for Symbol {
    open spec fn failure(j: Json) -> Option<Error> {
        if j is Text {
            None
        } else {
            Some(mismatch())
        }
    }

    open spec fn decoded_from(&self, j: Json) -> bool {
        j matches Json::Text(s) && self.0@ == s@
    }

    fn decode(j: &Json) -> (r: Result<Self, Error>) {
        match j {
            Json::Text(s) => Ok(Symbol(s.clone())),
            _ => Err(Error::Decode(DecodeError::Mismatch)),
        }
    }
}

impl Decode for OrderId {
    open spec fn failure(j: Json) -> Option<Error> {
        if j is Text {
            None
        } else {
            Some(mismatch())
        }
    }

    open spec fn decoded_from(&self, j: Json) -> bool {
        j matches Json::Text(s) && self.0@ == s@
    }

    fn decode(j: &Json) -> (r: Result<Self, Error>) {
        match j {
            Json::Text(s) => Ok(OrderId(s.clone())),
            _ => Err(Error::Decode(DecodeError::Mismatch)),
        }
    }
}

impl Decode for AccountNumber {
    open spec fn failure(j: Json) -> Option<Error> {
        if j is Text {
            None
        } else {
            Some(mismatch())
        }
    }

    open spec fn decoded_from(&self, j: Json) -> bool {
        j matches Json::Text(s) && self.0@ == s@
    }

    fn decode(j: &Json) -> (r: Result<Self, Error>) {
        match j {
            Json::Text(s) => Ok(AccountNumber(s.clone())),
            _ => Err(Error::Decode(DecodeError::Mismatch)),
        }
    }
}

} // verus!
