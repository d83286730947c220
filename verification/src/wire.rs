//! The broker's enumerated vocabularies and their exact wire strings.
//!
//! Each variant has exactly one wire string and each wire string names exactly
//! one variant; a string outside the set is an error, never a default.

use vstd::prelude::*;
use crate::decode::{mismatch, Decode};
use crate::error::{DecodeError, Error};
use crate::json::Json;
use crate::text::same_text;

verus! {

/// The sign convention attached to a monetary amount.
#[derive(Debug, Clone, Copy, PartialEq, Eq, Structural)]
pub enum PriceEffect {
    Debit,
    Credit,
    /// On the wire: `None`.
    NoEffect,
}

impl PriceEffect {
    /// The wire string of a variant.
    pub open spec fn wire(self) -> Seq<char> {
        match self {
            PriceEffect::Debit => "Debit"@,
            PriceEffect::Credit => "Credit"@,
            PriceEffect::NoEffect => "None"@,
        }
    }

    /// The variant that a wire string names, if any.
    pub open spec fn named_by(s: Seq<char>) -> Option<PriceEffect> {
        if s == "Debit"@ {
            Some(PriceEffect::Debit)
        } else if s == "Credit"@ {
            Some(PriceEffect::Credit)
        } else if s == "None"@ {
            Some(PriceEffect::NoEffect)
        } else {
            None
        }
    }

    /// The wire string of this variant.
    pub fn wire_name(&self) -> (s: &'static str)
        ensures
            s@ == self.wire(),
    {
        match self {
            PriceEffect::Debit => "Debit",
            PriceEffect::Credit => "Credit",
            PriceEffect::NoEffect => "None",
        }
    }

    /// Decodes a wire string: the variant it names, or `UnknownVariant` with
    /// the offending string and this enum's name.
    pub fn from_wire(s: &str) -> (r: Result<PriceEffect, Error>)
        ensures
            match PriceEffect::named_by(s@) {
                Some(v) => r == Ok::<PriceEffect, Error>(v),
                None => r matches Err(Error::Decode(DecodeError::UnknownVariant { value, enum_name, field }))
                    && value@ == s@ && enum_name == "PriceEffect" && field is None,
            },
    {
        if same_text(s, "Debit") {
            Ok(PriceEffect::Debit)
        } else if same_text(s, "Credit") {
            Ok(PriceEffect::Credit)
        } else if same_text(s, "None") {
            Ok(PriceEffect::NoEffect)
        } else {
            Err(Error::Decode(DecodeError::UnknownVariant { value: s.to_owned(), enum_name: "PriceEffect", field: None }))
        }
    }

    /// Decoding the wire string of a variant gives that variant back.
    pub proof fn lemma_round_trip(v: PriceEffect)
        ensures
            PriceEffect::named_by(v.wire()) == Some(v),
    {
        reveal_strlit("Debit");
        reveal_strlit("Credit");
        reveal_strlit("None");
        assert("Debit"@.len() == 5);
        assert("Credit"@.len() == 6);
        assert("None"@.len() == 4);
    }

    /// Two variants with the same wire string are the same variant.
    pub proof fn lemma_wire_injective(a: PriceEffect, b: PriceEffect)
        requires
            a.wire() == b.wire(),
        ensures
            a == b,
    {
        PriceEffect::lemma_round_trip(a);
        PriceEffect::lemma_round_trip(b);
    }

    /// A string names a variant only if it is that variant's wire string.
    pub proof fn lemma_named_is_wire(s: Seq<char>)
        ensures
            match PriceEffect::named_by(s) {
                Some(v) => v.wire() == s,
                None => forall|v: PriceEffect| v.wire() != s,
            },
    {
        if PriceEffect::named_by(s) is None {
            assert forall|v: PriceEffect| v.wire() != s by {
                PriceEffect::lemma_round_trip(v);
            }
        }
    }

    /// The JSON string of a variant's wire string decodes, and to that
    /// variant alone.
    pub proof fn lemma_json_round_trip(v: PriceEffect, j: Json)
        requires
            j matches Json::Text(s) && s@ == v.wire(),
        ensures
            PriceEffect::failure(j) is None,
            v.decoded_from(j),
            forall|w: PriceEffect| w.decoded_from(j) ==> w == v,
    {
        PriceEffect::lemma_round_trip(v);
    }

    /// A JSON string that is no wire string of the enum never decodes: the
    /// failure is `UnknownVariant` with that string and the enum's name.
    pub proof fn lemma_unknown_text_fails(s: String)
        requires
            forall|v: PriceEffect| v.wire() != s@,
        ensures
            PriceEffect::failure(Json::Text(s)) == Some(
                Error::Decode(DecodeError::UnknownVariant { value: s, enum_name: "PriceEffect", field: None }),
            ),
            forall|v: PriceEffect| !v.decoded_from(Json::Text(s)),
    {
        PriceEffect::lemma_named_is_wire(s@);
    }

    /// Encodes the variant as a JSON string holding its wire string.
    pub fn to_json(&self) -> (j: Json)
        ensures
            j matches Json::Text(s) && s@ == self.wire(),
    {
        Json::Text(self.wire_name().to_owned())
    }
}

impl Decode for PriceEffect {
    open spec fn failure(j: Json) -> Option<Error> {
        match j {
            Json::Text(s) => if PriceEffect::named_by(s@) is Some {
                None
            } else {
                Some(Error::Decode(DecodeError::UnknownVariant { value: s, enum_name: "PriceEffect", field: None }))
            },
            _ => Some(mismatch()),
        }
    }

    open spec fn decoded_from(&self, j: Json) -> bool {
        j matches Json::Text(s) && PriceEffect::named_by(s@) == Some(*self)
    }

    fn decode(j: &Json) -> (r: Result<Self, Error>) {
        match j {
            Json::Text(s) => match PriceEffect::from_wire(s.as_str()) {
                Ok(v) => Ok(v),
                Err(_) => Err(Error::Decode(DecodeError::UnknownVariant { value: s.clone(), enum_name: "PriceEffect", field: None })),
            },
            _ => Err(Error::Decode(DecodeError::Mismatch)),
        }
    }
}

/// What a leg does to a position.
#[derive(Debug, Clone, Copy, PartialEq, Eq, Structural)]
pub enum Action {
    /// On the wire: `Buy to Open`.
    BuyToOpen,
    /// On the wire: `Sell to Open`.
    SellToOpen,
    /// On the wire: `Buy to Close`.
    BuyToClose,
    /// On the wire: `Sell to Close`.
    SellToClose,
    Sell,
    Buy,
}

impl Action {
    /// The wire string of a variant.
    pub open spec fn wire(self) -> Seq<char> {
        match self {
            Action::BuyToOpen => "Buy to Open"@,
            Action::SellToOpen => "Sell to Open"@,
            Action::BuyToClose => "Buy to Close"@,
            Action::SellToClose => "Sell to Close"@,
            Action::Sell => "Sell"@,
            Action::Buy => "Buy"@,
        }
    }

    /// The variant that a wire string names, if any.
    pub open spec fn named_by(s: Seq<char>) -> Option<Action> {
        if s == "Buy to Open"@ {
            Some(Action::BuyToOpen)
        } else if s == "Sell to Open"@ {
            Some(Action::SellToOpen)
        } else if s == "Buy to Close"@ {
            Some(Action::BuyToClose)
        } else if s == "Sell to Close"@ {
            Some(Action::SellToClose)
        } else if s == "Sell"@ {
            Some(Action::Sell)
        } else if s == "Buy"@ {
            Some(Action::Buy)
        } else {
            None
        }
    }

    /// The wire string of this variant.
    pub fn wire_name(&self) -> (s: &'static str)
        ensures
            s@ == self.wire(),
    {
        match self {
            Action::BuyToOpen => "Buy to Open",
            Action::SellToOpen => "Sell to Open",
            Action::BuyToClose => "Buy to Close",
            Action::SellToClose => "Sell to Close",
            Action::Sell => "Sell",
            Action::Buy => "Buy",
        }
    }

    /// Decodes a wire string: the variant it names, or `UnknownVariant` with
    /// the offending string and this enum's name.
    pub fn from_wire(s: &str) -> (r: Result<Action, Error>)
        ensures
            match Action::named_by(s@) {
                Some(v) => r == Ok::<Action, Error>(v),
                None => r matches Err(Error::Decode(DecodeError::UnknownVariant { value, enum_name, field }))
                    && value@ == s@ && enum_name == "Action" && field is None,
            },
    {
        if same_text(s, "Buy to Open") {
            Ok(Action::BuyToOpen)
        } else if same_text(s, "Sell to Open") {
            Ok(Action::SellToOpen)
        } else if same_text(s, "Buy to Close") {
            Ok(Action::BuyToClose)
        } else if same_text(s, "Sell to Close") {
            Ok(Action::SellToClose)
        } else if same_text(s, "Sell") {
            Ok(Action::Sell)
        } else if same_text(s, "Buy") {
            Ok(Action::Buy)
        } else {
            Err(Error::Decode(DecodeError::UnknownVariant { value: s.to_owned(), enum_name: "Action", field: None }))
        }
    }

    /// Decoding the wire string of a variant gives that variant back.
    pub proof fn lemma_round_trip(v: Action)
        ensures
            Action::named_by(v.wire()) == Some(v),
    {
        reveal_strlit("Buy to Open");
        reveal_strlit("Sell to Open");
        reveal_strlit("Buy to Close");
        reveal_strlit("Sell to Close");
        reveal_strlit("Sell");
        reveal_strlit("Buy");
        assert("Buy to Open"@.len() == 11);
        assert("Sell to Open"@.len() == 12);
        assert("Buy to Close"@.len() == 12);
        assert("Sell to Close"@.len() == 13);
        assert("Sell"@.len() == 4);
        assert("Buy"@.len() == 3);
        assert("Buy to Close"@[0] != "Sell to Open"@[0]);
    }

    /// Two variants with the same wire string are the same variant.
    pub proof fn lemma_wire_injective(a: Action, b: Action)
        requires
            a.wire() == b.wire(),
        ensures
            a == b,
    {
        Action::lemma_round_trip(a);
        Action::lemma_round_trip(b);
    }

    /// A string names a variant only if it is that variant's wire string.
    pub proof fn lemma_named_is_wire(s: Seq<char>)
        ensures
            match Action::named_by(s) {
                Some(v) => v.wire() == s,
                None => forall|v: Action| v.wire() != s,
            },
    {
        if Action::named_by(s) is None {
            assert forall|v: Action| v.wire() != s by {
                Action::lemma_round_trip(v);
            }
        }
    }

    /// The JSON string of a variant's wire string decodes, and to that
    /// variant alone.
    pub proof fn lemma_json_round_trip(v: Action, j: Json)
        requires
            j matches Json::Text(s) && s@ == v.wire(),
        ensures
            Action::failure(j) is None,
            v.decoded_from(j),
            forall|w: Action| w.decoded_from(j) ==> w == v,
    {
        Action::lemma_round_trip(v);
    }

    /// A JSON string that is no wire string of the enum never decodes: the
    /// failure is `UnknownVariant` with that string and the enum's name.
    pub proof fn lemma_unknown_text_fails(s: String)
        requires
            forall|v: Action| v.wire() != s@,
        ensures
            Action::failure(Json::Text(s)) == Some(
                Error::Decode(DecodeError::UnknownVariant { value: s, enum_name: "Action", field: None }),
            ),
            forall|v: Action| !v.decoded_from(Json::Text(s)),
    {
        Action::lemma_named_is_wire(s@);
    }

    /// Encodes the variant as a JSON string holding its wire string.
    pub fn to_json(&self) -> (j: Json)
        ensures
            j matches Json::Text(s) && s@ == self.wire(),
    {
        Json::Text(self.wire_name().to_owned())
    }
}

impl Decode for Action {
    open spec fn failure(j: Json) -> Option<Error> {
        match j {
            Json::Text(s) => if Action::named_by(s@) is Some {
                None
            } else {
                Some(Error::Decode(DecodeError::UnknownVariant { value: s, enum_name: "Action", field: None }))
            },
            _ => Some(mismatch()),
        }
    }

    open spec fn decoded_from(&self, j: Json) -> bool {
        j matches Json::Text(s) && Action::named_by(s@) == Some(*self)
    }

    fn decode(j: &Json) -> (r: Result<Self, Error>) {
        match j {
            Json::Text(s) => match Action::from_wire(s.as_str()) {
                Ok(v) => Ok(v),
                Err(_) => Err(Error::Decode(DecodeError::UnknownVariant { value: s.clone(), enum_name: "Action", field: None })),
            },
            _ => Err(Error::Decode(DecodeError::Mismatch)),
        }
    }
}

/// The kind of instrument a leg trades.
#[derive(Debug, Clone, Copy, PartialEq, Eq, Structural)]
pub enum InstrumentType {
    Equity,
    /// On the wire: `Equity Option`.
    EquityOption,
    /// On the wire: `Equity Offering`.
    EquityOffering,
    Future,
    /// On the wire: `Future Option`.
    FutureOption,
    Cryptocurrency,
}

impl InstrumentType {
    /// The wire string of a variant.
    pub open spec fn wire(self) -> Seq<char> {
        match self {
            InstrumentType::Equity => "Equity"@,
            InstrumentType::EquityOption => "Equity Option"@,
            InstrumentType::EquityOffering => "Equity Offering"@,
            InstrumentType::Future => "Future"@,
            InstrumentType::FutureOption => "Future Option"@,
            InstrumentType::Cryptocurrency => "Cryptocurrency"@,
        }
    }

    /// The variant that a wire string names, if any.
    pub open spec fn named_by(s: Seq<char>) -> Option<InstrumentType> {
        if s == "Equity"@ {
            Some(InstrumentType::Equity)
        } else if s == "Equity Option"@ {
            Some(InstrumentType::EquityOption)
        } else if s == "Equity Offering"@ {
            Some(InstrumentType::EquityOffering)
        } else if s == "Future"@ {
            Some(InstrumentType::Future)
        } else if s == "Future Option"@ {
            Some(InstrumentType::FutureOption)
        } else if s == "Cryptocurrency"@ {
            Some(InstrumentType::Cryptocurrency)
        } else {
            None
        }
    }

    /// The wire string of this variant.
    pub fn wire_name(&self) -> (s: &'static str)
        ensures
            s@ == self.wire(),
    {
        match self {
            InstrumentType::Equity => "Equity",
            InstrumentType::EquityOption => "Equity Option",
            InstrumentType::EquityOffering => "Equity Offering",
            InstrumentType::Future => "Future",
            InstrumentType::FutureOption => "Future Option",
            InstrumentType::Cryptocurrency => "Cryptocurrency",
        }
    }

    /// Decodes a wire string: the variant it names, or `UnknownVariant` with
    /// the offending string and this enum's name.
    pub fn from_wire(s: &str) -> (r: Result<InstrumentType, Error>)
        ensures
            match InstrumentType::named_by(s@) {
                Some(v) => r == Ok::<InstrumentType, Error>(v),
                None => r matches Err(Error::Decode(DecodeError::UnknownVariant { value, enum_name, field }))
                    && value@ == s@ && enum_name == "InstrumentType" && field is None,
            },
    {
        if same_text(s, "Equity") {
            Ok(InstrumentType::Equity)
        } else if same_text(s, "Equity Option") {
            Ok(InstrumentType::EquityOption)
        } else if same_text(s, "Equity Offering") {
            Ok(InstrumentType::EquityOffering)
        } else if same_text(s, "Future") {
            Ok(InstrumentType::Future)
        } else if same_text(s, "Future Option") {
            Ok(InstrumentType::FutureOption)
        } else if same_text(s, "Cryptocurrency") {
            Ok(InstrumentType::Cryptocurrency)
        } else {
            Err(Error::Decode(DecodeError::UnknownVariant { value: s.to_owned(), enum_name: "InstrumentType", field: None }))
        }
    }

    /// Decoding the wire string of a variant gives that variant back.
    pub proof fn lemma_round_trip(v: InstrumentType)
        ensures
            InstrumentType::named_by(v.wire()) == Some(v),
    {
        reveal_strlit("Equity");
        reveal_strlit("Equity Option");
        reveal_strlit("Equity Offering");
        reveal_strlit("Future");
        reveal_strlit("Future Option");
        reveal_strlit("Cryptocurrency");
        assert("Equity"@.len() == 6);
        assert("Equity Option"@.len() == 13);
        assert("Equity Offering"@.len() == 15);
        assert("Future"@.len() == 6);
        assert("Future Option"@.len() == 13);
        assert("Cryptocurrency"@.len() == 14);
        assert("Future"@[0] != "Equity"@[0]);
        assert("Future Option"@[0] != "Equity Option"@[0]);
    }

    /// Two variants with the same wire string are the same variant.
    pub proof fn lemma_wire_injective(a: InstrumentType, b: InstrumentType)
        requires
            a.wire() == b.wire(),
        ensures
            a == b,
    {
        InstrumentType::lemma_round_trip(a);
        InstrumentType::lemma_round_trip(b);
    }

    /// A string names a variant only if it is that variant's wire string.
    pub proof fn lemma_named_is_wire(s: Seq<char>)
        ensures
            match InstrumentType::named_by(s) {
                Some(v) => v.wire() == s,
                None => forall|v: InstrumentType| v.wire() != s,
            },
    {
        if InstrumentType::named_by(s) is None {
            assert forall|v: InstrumentType| v.wire() != s by {
                InstrumentType::lemma_round_trip(v);
            }
        }
    }

    /// The JSON string of a variant's wire string decodes, and to that
    /// variant alone.
    pub proof fn lemma_json_round_trip(v: InstrumentType, j: Json)
        requires
            j matches Json::Text(s) && s@ == v.wire(),
        ensures
            InstrumentType::failure(j) is None,
            v.decoded_from(j),
            forall|w: InstrumentType| w.decoded_from(j) ==> w == v,
    {
        InstrumentType::lemma_round_trip(v);
    }

    /// A JSON string that is no wire string of the enum never decodes: the
    /// failure is `UnknownVariant` with that string and the enum's name.
    pub proof fn lemma_unknown_text_fails(s: String)
        requires
            forall|v: InstrumentType| v.wire() != s@,
        ensures
            InstrumentType::failure(Json::Text(s)) == Some(
                Error::Decode(DecodeError::UnknownVariant { value: s, enum_name: "InstrumentType", field: None }),
            ),
            forall|v: InstrumentType| !v.decoded_from(Json::Text(s)),
    {
        InstrumentType::lemma_named_is_wire(s@);
    }

    /// Encodes the variant as a JSON string holding its wire string.
    pub fn to_json(&self) -> (j: Json)
        ensures
            j matches Json::Text(s) && s@ == self.wire(),
    {
        Json::Text(self.wire_name().to_owned())
    }
}

impl Decode for InstrumentType {
    open spec fn failure(j: Json) -> Option<Error> {
        match j {
            Json::Text(s) => if InstrumentType::named_by(s@) is Some {
                None
            } else {
                Some(Error::Decode(DecodeError::UnknownVariant { value: s, enum_name: "InstrumentType", field: None }))
            },
            _ => Some(mismatch()),
        }
    }

    open spec fn decoded_from(&self, j: Json) -> bool {
        j matches Json::Text(s) && InstrumentType::named_by(s@) == Some(*self)
    }

    fn decode(j: &Json) -> (r: Result<Self, Error>) {
        match j {
            Json::Text(s) => match InstrumentType::from_wire(s.as_str()) {
                Ok(v) => Ok(v),
                Err(_) => Err(Error::Decode(DecodeError::UnknownVariant { value: s.clone(), enum_name: "InstrumentType", field: None })),
            },
            _ => Err(Error::Decode(DecodeError::Mismatch)),
        }
    }
}

/// How an order is priced.
#[derive(Debug, Clone, Copy, PartialEq, Eq, Structural)]
pub enum OrderType {
    Limit,
    Market,
    /// On the wire: `Marketable Limit`.
    MarketableLimit,
    Stop,
    /// On the wire: `Stop Limit`.
    StopLimit,
    /// On the wire: `Notional Market`.
    NotionalMarket,
}

impl OrderType {
    /// The wire string of a variant.
    pub open spec fn wire(self) -> Seq<char> {
        match self {
            OrderType::Limit => "Limit"@,
            OrderType::Market => "Market"@,
            OrderType::MarketableLimit => "Marketable Limit"@,
            OrderType::Stop => "Stop"@,
            OrderType::StopLimit => "Stop Limit"@,
            OrderType::NotionalMarket => "Notional Market"@,
        }
    }

    /// The variant that a wire string names, if any.
    pub open spec fn named_by(s: Seq<char>) -> Option<OrderType> {
        if s == "Limit"@ {
            Some(OrderType::Limit)
        } else if s == "Market"@ {
            Some(OrderType::Market)
        } else if s == "Marketable Limit"@ {
            Some(OrderType::MarketableLimit)
        } else if s == "Stop"@ {
            Some(OrderType::Stop)
        } else if s == "Stop Limit"@ {
            Some(OrderType::StopLimit)
        } else if s == "Notional Market"@ {
            Some(OrderType::NotionalMarket)
        } else {
            None
        }
    }

    /// The wire string of this variant.
    pub fn wire_name(&self) -> (s: &'static str)
        ensures
            s@ == self.wire(),
    {
        match self {
            OrderType::Limit => "Limit",
            OrderType::Market => "Market",
            OrderType::MarketableLimit => "Marketable Limit",
            OrderType::Stop => "Stop",
            OrderType::StopLimit => "Stop Limit",
            OrderType::NotionalMarket => "Notional Market",
        }
    }

    /// Decodes a wire string: the variant it names, or `UnknownVariant` with
    /// the offending string and this enum's name.
    pub fn from_wire(s: &str) -> (r: Result<OrderType, Error>)
        ensures
            match OrderType::named_by(s@) {
                Some(v) => r == Ok::<OrderType, Error>(v),
                None => r matches Err(Error::Decode(DecodeError::UnknownVariant { value, enum_name, field }))
                    && value@ == s@ && enum_name == "OrderType" && field is None,
            },
    {
        if same_text(s, "Limit") {
            Ok(OrderType::Limit)
        } else if same_text(s, "Market") {
            Ok(OrderType::Market)
        } else if same_text(s, "Marketable Limit") {
            Ok(OrderType::MarketableLimit)
        } else if same_text(s, "Stop") {
            Ok(OrderType::Stop)
        } else if same_text(s, "Stop Limit") {
            Ok(OrderType::StopLimit)
        } else if same_text(s, "Notional Market") {
            Ok(OrderType::NotionalMarket)
        } else {
            Err(Error::Decode(DecodeError::UnknownVariant { value: s.to_owned(), enum_name: "OrderType", field: None }))
        }
    }

    /// Decoding the wire string of a variant gives that variant back.
    pub proof fn lemma_round_trip(v: OrderType)
        ensures
            OrderType::named_by(v.wire()) == Some(v),
    {
        reveal_strlit("Limit");
        reveal_strlit("Market");
        reveal_strlit("Marketable Limit");
        reveal_strlit("Stop");
        reveal_strlit("Stop Limit");
        reveal_strlit("Notional Market");
        assert("Limit"@.len() == 5);
        assert("Market"@.len() == 6);
        assert("Marketable Limit"@.len() == 16);
        assert("Stop"@.len() == 4);
        assert("Stop Limit"@.len() == 10);
        assert("Notional Market"@.len() == 15);
    }

    /// Two variants with the same wire string are the same variant.
    pub proof fn lemma_wire_injective(a: OrderType, b: OrderType)
        requires
            a.wire() == b.wire(),
        ensures
            a == b,
    {
        OrderType::lemma_round_trip(a);
        OrderType::lemma_round_trip(b);
    }

    /// A string names a variant only if it is that variant's wire string.
    pub proof fn lemma_named_is_wire(s: Seq<char>)
        ensures
            match OrderType::named_by(s) {
                Some(v) => v.wire() == s,
                None => forall|v: OrderType| v.wire() != s,
            },
    {
        if OrderType::named_by(s) is None {
            assert forall|v: OrderType| v.wire() != s by {
                OrderType::lemma_round_trip(v);
            }
        }
    }

    /// The JSON string of a variant's wire string decodes, and to that
    /// variant alone.
    pub proof fn lemma_json_round_trip(v: OrderType, j: Json)
        requires
            j matches Json::Text(s) && s@ == v.wire(),
        ensures
            OrderType::failure(j) is None,
            v.decoded_from(j),
            forall|w: OrderType| w.decoded_from(j) ==> w == v,
    {
        OrderType::lemma_round_trip(v);
    }

    /// A JSON string that is no wire string of the enum never decodes: the
    /// failure is `UnknownVariant` with that string and the enum's name.
    pub proof fn lemma_unknown_text_fails(s: String)
        requires
            forall|v: OrderType| v.wire() != s@,
        ensures
            OrderType::failure(Json::Text(s)) == Some(
                Error::Decode(DecodeError::UnknownVariant { value: s, enum_name: "OrderType", field: None }),
            ),
            forall|v: OrderType| !v.decoded_from(Json::Text(s)),
    {
        OrderType::lemma_named_is_wire(s@);
    }

    /// Encodes the variant as a JSON string holding its wire string.
    pub fn to_json(&self) -> (j: Json)
        ensures
            j matches Json::Text(s) && s@ == self.wire(),
    {
        Json::Text(self.wire_name().to_owned())
    }
}

impl Decode for OrderType {
    open spec fn failure(j: Json) -> Option<Error> {
        match j {
            Json::Text(s) => if OrderType::named_by(s@) is Some {
                None
            } else {
                Some(Error::Decode(DecodeError::UnknownVariant { value: s, enum_name: "OrderType", field: None }))
            },
            _ => Some(mismatch()),
        }
    }

    open spec fn decoded_from(&self, j: Json) -> bool {
        j matches Json::Text(s) && OrderType::named_by(s@) == Some(*self)
    }

    fn decode(j: &Json) -> (r: Result<Self, Error>) {
        match j {
            Json::Text(s) => match OrderType::from_wire(s.as_str()) {
                Ok(v) => Ok(v),
                Err(_) => Err(Error::Decode(DecodeError::UnknownVariant { value: s.clone(), enum_name: "OrderType", field: None })),
            },
            _ => Err(Error::Decode(DecodeError::Mismatch)),
        }
    }
}

/// How long an unfilled order stays active.
#[derive(Debug, Clone, Copy, PartialEq, Eq, Structural)]
pub enum TimeInForce {
    Day,
    GTC,
    GTD,
    Ext,
    /// On the wire: `GTC Ext`.
    GTCExt,
    IOC,
}

impl TimeInForce {
    /// The wire string of a variant.
    pub open spec fn wire(self) -> Seq<char> {
        match self {
            TimeInForce::Day => "Day"@,
            TimeInForce::GTC => "GTC"@,
            TimeInForce::GTD => "GTD"@,
            TimeInForce::Ext => "Ext"@,
            TimeInForce::GTCExt => "GTC Ext"@,
            TimeInForce::IOC => "IOC"@,
        }
    }

    /// The variant that a wire string names, if any.
    pub open spec fn named_by(s: Seq<char>) -> Option<TimeInForce> {
        if s == "Day"@ {
            Some(TimeInForce::Day)
        } else if s == "GTC"@ {
            Some(TimeInForce::GTC)
        } else if s == "GTD"@ {
            Some(TimeInForce::GTD)
        } else if s == "Ext"@ {
            Some(TimeInForce::Ext)
        } else if s == "GTC Ext"@ {
            Some(TimeInForce::GTCExt)
        } else if s == "IOC"@ {
            Some(TimeInForce::IOC)
        } else {
            None
        }
    }

    /// The wire string of this variant.
    pub fn wire_name(&self) -> (s: &'static str)
        ensures
            s@ == self.wire(),
    {
        match self {
            TimeInForce::Day => "Day",
            TimeInForce::GTC => "GTC",
            TimeInForce::GTD => "GTD",
            TimeInForce::Ext => "Ext",
            TimeInForce::GTCExt => "GTC Ext",
            TimeInForce::IOC => "IOC",
        }
    }

    /// Decodes a wire string: the variant it names, or `UnknownVariant` with
    /// the offending string and this enum's name.
    pub fn from_wire(s: &str) -> (r: Result<TimeInForce, Error>)
        ensures
            match TimeInForce::named_by(s@) {
                Some(v) => r == Ok::<TimeInForce, Error>(v),
                None => r matches Err(Error::Decode(DecodeError::UnknownVariant { value, enum_name, field }))
                    && value@ == s@ && enum_name == "TimeInForce" && field is None,
            },
    {
        if same_text(s, "Day") {
            Ok(TimeInForce::Day)
        } else if same_text(s, "GTC") {
            Ok(TimeInForce::GTC)
        } else if same_text(s, "GTD") {
            Ok(TimeInForce::GTD)
        } else if same_text(s, "Ext") {
            Ok(TimeInForce::Ext)
        } else if same_text(s, "GTC Ext") {
            Ok(TimeInForce::GTCExt)
        } else if same_text(s, "IOC") {
            Ok(TimeInForce::IOC)
        } else {
            Err(Error::Decode(DecodeError::UnknownVariant { value: s.to_owned(), enum_name: "TimeInForce", field: None }))
        }
    }

    /// Decoding the wire string of a variant gives that variant back.
    pub proof fn lemma_round_trip(v: TimeInForce)
        ensures
            TimeInForce::named_by(v.wire()) == Some(v),
    {
        reveal_strlit("Day");
        reveal_strlit("GTC");
        reveal_strlit("GTD");
        reveal_strlit("Ext");
        reveal_strlit("GTC Ext");
        reveal_strlit("IOC");
        assert("Day"@.len() == 3);
        assert("GTC"@.len() == 3);
        assert("GTD"@.len() == 3);
        assert("Ext"@.len() == 3);
        assert("GTC Ext"@.len() == 7);
        assert("IOC"@.len() == 3);
        assert("GTC"@[0] != "Day"@[0]);
        assert("GTD"@[0] != "Day"@[0]);
        assert("GTD"@[2] != "GTC"@[2]);
        assert("Ext"@[0] != "Day"@[0]);
        assert("Ext"@[0] != "GTC"@[0]);
        assert("Ext"@[0] != "GTD"@[0]);
        assert("IOC"@[0] != "Day"@[0]);
        assert("IOC"@[0] != "GTC"@[0]);
        assert("IOC"@[0] != "GTD"@[0]);
        assert("IOC"@[0] != "Ext"@[0]);
    }

    /// Two variants with the same wire string are the same variant.
    pub proof fn lemma_wire_injective(a: TimeInForce, b: TimeInForce)
        requires
            a.wire() == b.wire(),
        ensures
            a == b,
    {
        TimeInForce::lemma_round_trip(a);
        TimeInForce::lemma_round_trip(b);
    }

    /// A string names a variant only if it is that variant's wire string.
    pub proof fn lemma_named_is_wire(s: Seq<char>)
        ensures
            match TimeInForce::named_by(s) {
                Some(v) => v.wire() == s,
                None => forall|v: TimeInForce| v.wire() != s,
            },
    {
        if TimeInForce::named_by(s) is None {
            assert forall|v: TimeInForce| v.wire() != s by {
                TimeInForce::lemma_round_trip(v);
            }
        }
    }

    /// The JSON string of a variant's wire string decodes, and to that
    /// variant alone.
    pub proof fn lemma_json_round_trip(v: TimeInForce, j: Json)
        requires
            j matches Json::Text(s) && s@ == v.wire(),
        ensures
            TimeInForce::failure(j) is None,
            v.decoded_from(j),
            forall|w: TimeInForce| w.decoded_from(j) ==> w == v,
    {
        TimeInForce::lemma_round_trip(v);
    }

    /// A JSON string that is no wire string of the enum never decodes: the
    /// failure is `UnknownVariant` with that string and the enum's name.
    pub proof fn lemma_unknown_text_fails(s: String)
        requires
            forall|v: TimeInForce| v.wire() != s@,
        ensures
            TimeInForce::failure(Json::Text(s)) == Some(
                Error::Decode(DecodeError::UnknownVariant { value: s, enum_name: "TimeInForce", field: None }),
            ),
            forall|v: TimeInForce| !v.decoded_from(Json::Text(s)),
    {
        TimeInForce::lemma_named_is_wire(s@);
    }

    /// Encodes the variant as a JSON string holding its wire string.
    pub fn to_json(&self) -> (j: Json)
        ensures
            j matches Json::Text(s) && s@ == self.wire(),
    {
        Json::Text(self.wire_name().to_owned())
    }
}

impl Decode for TimeInForce {
    open spec fn failure(j: Json) -> Option<Error> {
        match j {
            Json::Text(s) => if TimeInForce::named_by(s@) is Some {
                None
            } else {
                Some(Error::Decode(DecodeError::UnknownVariant { value: s, enum_name: "TimeInForce", field: None }))
            },
            _ => Some(mismatch()),
        }
    }

    open spec fn decoded_from(&self, j: Json) -> bool {
        j matches Json::Text(s) && TimeInForce::named_by(s@) == Some(*self)
    }

    fn decode(j: &Json) -> (r: Result<Self, Error>) {
        match j {
            Json::Text(s) => match TimeInForce::from_wire(s.as_str()) {
                Ok(v) => Ok(v),
                Err(_) => Err(Error::Decode(DecodeError::UnknownVariant { value: s.clone(), enum_name: "TimeInForce", field: None })),
            },
            _ => Err(Error::Decode(DecodeError::Mismatch)),
        }
    }
}

/// The broker-reported state of an order.
#[derive(Debug, Clone, Copy, PartialEq, Eq, Structural)]
pub enum OrderStatus {
    Received,
    Routed,
    /// On the wire: `In Flight`.
    InFlight,
    Live,
    /// On the wire: `Cancel Requested`.
    CancelRequested,
    /// On the wire: `Replace Requested`.
    ReplaceRequested,
    Contingent,
    Filled,
    Cancelled,
    Expired,
    Rejected,
    Removed,
    /// On the wire: `Partially Removed`.
    PartiallyRemoved,
}

impl OrderStatus {
    /// The wire string of a variant.
    pub open spec fn wire(self) -> Seq<char> {
        match self {
            OrderStatus::Received => "Received"@,
            OrderStatus::Routed => "Routed"@,
            OrderStatus::InFlight => "In Flight"@,
            OrderStatus::Live => "Live"@,
            OrderStatus::CancelRequested => "Cancel Requested"@,
            OrderStatus::ReplaceRequested => "Replace Requested"@,
            OrderStatus::Contingent => "Contingent"@,
            OrderStatus::Filled => "Filled"@,
            OrderStatus::Cancelled => "Cancelled"@,
            OrderStatus::Expired => "Expired"@,
            OrderStatus::Rejected => "Rejected"@,
            OrderStatus::Removed => "Removed"@,
            OrderStatus::PartiallyRemoved => "Partially Removed"@,
        }
    }

    /// The variant that a wire string names, if any.
    pub open spec fn named_by(s: Seq<char>) -> Option<OrderStatus> {
        if s == "Received"@ {
            Some(OrderStatus::Received)
        } else if s == "Routed"@ {
            Some(OrderStatus::Routed)
        } else if s == "In Flight"@ {
            Some(OrderStatus::InFlight)
        } else if s == "Live"@ {
            Some(OrderStatus::Live)
        } else if s == "Cancel Requested"@ {
            Some(OrderStatus::CancelRequested)
        } else if s == "Replace Requested"@ {
            Some(OrderStatus::ReplaceRequested)
        } else if s == "Contingent"@ {
            Some(OrderStatus::Contingent)
        } else if s == "Filled"@ {
            Some(OrderStatus::Filled)
        } else if s == "Cancelled"@ {
            Some(OrderStatus::Cancelled)
        } else if s == "Expired"@ {
            Some(OrderStatus::Expired)
        } else if s == "Rejected"@ {
            Some(OrderStatus::Rejected)
        } else if s == "Removed"@ {
            Some(OrderStatus::Removed)
        } else if s == "Partially Removed"@ {
            Some(OrderStatus::PartiallyRemoved)
        } else {
            None
        }
    }

    /// The wire string of this variant.
    pub fn wire_name(&self) -> (s: &'static str)
        ensures
            s@ == self.wire(),
    {
        match self {
            OrderStatus::Received => "Received",
            OrderStatus::Routed => "Routed",
            OrderStatus::InFlight => "In Flight",
            OrderStatus::Live => "Live",
            OrderStatus::CancelRequested => "Cancel Requested",
            OrderStatus::ReplaceRequested => "Replace Requested",
            OrderStatus::Contingent => "Contingent",
            OrderStatus::Filled => "Filled",
            OrderStatus::Cancelled => "Cancelled",
            OrderStatus::Expired => "Expired",
            OrderStatus::Rejected => "Rejected",
            OrderStatus::Removed => "Removed",
            OrderStatus::PartiallyRemoved => "Partially Removed",
        }
    }

    /// Decodes a wire string: the variant it names, or `UnknownVariant` with
    /// the offending string and this enum's name.
    pub fn from_wire(s: &str) -> (r: Result<OrderStatus, Error>)
        ensures
            match OrderStatus::named_by(s@) {
                Some(v) => r == Ok::<OrderStatus, Error>(v),
                None => r matches Err(Error::Decode(DecodeError::UnknownVariant { value, enum_name, field }))
                    && value@ == s@ && enum_name == "OrderStatus" && field is None,
            },
    {
        if same_text(s, "Received") {
            Ok(OrderStatus::Received)
        } else if same_text(s, "Routed") {
            Ok(OrderStatus::Routed)
        } else if same_text(s, "In Flight") {
            Ok(OrderStatus::InFlight)
        } else if same_text(s, "Live") {
            Ok(OrderStatus::Live)
        } else if same_text(s, "Cancel Requested") {
            Ok(OrderStatus::CancelRequested)
        } else if same_text(s, "Replace Requested") {
            Ok(OrderStatus::ReplaceRequested)
        } else if same_text(s, "Contingent") {
            Ok(OrderStatus::Contingent)
        } else if same_text(s, "Filled") {
            Ok(OrderStatus::Filled)
        } else if same_text(s, "Cancelled") {
            Ok(OrderStatus::Cancelled)
        } else if same_text(s, "Expired") {
            Ok(OrderStatus::Expired)
        } else if same_text(s, "Rejected") {
            Ok(OrderStatus::Rejected)
        } else if same_text(s, "Removed") {
            Ok(OrderStatus::Removed)
        } else if same_text(s, "Partially Removed") {
            Ok(OrderStatus::PartiallyRemoved)
        } else {
            Err(Error::Decode(DecodeError::UnknownVariant { value: s.to_owned(), enum_name: "OrderStatus", field: None }))
        }
    }

    /// Decoding the wire string of a variant gives that variant back.
    pub proof fn lemma_round_trip(v: OrderStatus)
        ensures
            OrderStatus::named_by(v.wire()) == Some(v),
    {
        reveal_strlit("Received");
        reveal_strlit("Routed");
        reveal_strlit("In Flight");
        reveal_strlit("Live");
        reveal_strlit("Cancel Requested");
        reveal_strlit("Replace Requested");
        reveal_strlit("Contingent");
        reveal_strlit("Filled");
        reveal_strlit("Cancelled");
        reveal_strlit("Expired");
        reveal_strlit("Rejected");
        reveal_strlit("Removed");
        reveal_strlit("Partially Removed");
        assert("Received"@.len() == 8);
        assert("Routed"@.len() == 6);
        assert("In Flight"@.len() == 9);
        assert("Live"@.len() == 4);
        assert("Cancel Requested"@.len() == 16);
        assert("Replace Requested"@.len() == 17);
        assert("Contingent"@.len() == 10);
        assert("Filled"@.len() == 6);
        assert("Cancelled"@.len() == 9);
        assert("Expired"@.len() == 7);
        assert("Rejected"@.len() == 8);
        assert("Removed"@.len() == 7);
        assert("Partially Removed"@.len() == 17);
        assert("Filled"@[0] != "Routed"@[0]);
        assert("Cancelled"@[0] != "In Flight"@[0]);
        assert("Rejected"@[2] != "Received"@[2]);
        assert("Removed"@[0] != "Expired"@[0]);
        assert("Partially Removed"@[0] != "Replace Requested"@[0]);
    }

    /// Two variants with the same wire string are the same variant.
    pub proof fn lemma_wire_injective(a: OrderStatus, b: OrderStatus)
        requires
            a.wire() == b.wire(),
        ensures
            a == b,
    {
        OrderStatus::lemma_round_trip(a);
        OrderStatus::lemma_round_trip(b);
    }

    /// A string names a variant only if it is that variant's wire string.
    pub proof fn lemma_named_is_wire(s: Seq<char>)
        ensures
            match OrderStatus::named_by(s) {
                Some(v) => v.wire() == s,
                None => forall|v: OrderStatus| v.wire() != s,
            },
    {
        if OrderStatus::named_by(s) is None {
            assert forall|v: OrderStatus| v.wire() != s by {
                OrderStatus::lemma_round_trip(v);
            }
        }
    }

    /// The JSON string of a variant's wire string decodes, and to that
    /// variant alone.
    pub proof fn lemma_json_round_trip(v: OrderStatus, j: Json)
        requires
            j matches Json::Text(s) && s@ == v.wire(),
        ensures
            OrderStatus::failure(j) is None,
            v.decoded_from(j),
            forall|w: OrderStatus| w.decoded_from(j) ==> w == v,
    {
        OrderStatus::lemma_round_trip(v);
    }

    /// A JSON string that is no wire string of the enum never decodes: the
    /// failure is `UnknownVariant` with that string and the enum's name.
    pub proof fn lemma_unknown_text_fails(s: String)
        requires
            forall|v: OrderStatus| v.wire() != s@,
        ensures
            OrderStatus::failure(Json::Text(s)) == Some(
                Error::Decode(DecodeError::UnknownVariant { value: s, enum_name: "OrderStatus", field: None }),
            ),
            forall|v: OrderStatus| !v.decoded_from(Json::Text(s)),
    {
        OrderStatus::lemma_named_is_wire(s@);
    }

    /// Encodes the variant as a JSON string holding its wire string.
    pub fn to_json(&self) -> (j: Json)
        ensures
            j matches Json::Text(s) && s@ == self.wire(),
    {
        Json::Text(self.wire_name().to_owned())
    }
}

impl Decode for OrderStatus {
    open spec fn failure(j: Json) -> Option<Error> {
        match j {
            Json::Text(s) => if OrderStatus::named_by(s@) is Some {
                None
            } else {
                Some(Error::Decode(DecodeError::UnknownVariant { value: s, enum_name: "OrderStatus", field: None }))
            },
            _ => Some(mismatch()),
        }
    }

    open spec fn decoded_from(&self, j: Json) -> bool {
        j matches Json::Text(s) && OrderStatus::named_by(s@) == Some(*self)
    }

    fn decode(j: &Json) -> (r: Result<Self, Error>) {
        match j {
            Json::Text(s) => match OrderStatus::from_wire(s.as_str()) {
                Ok(v) => Ok(v),
                Err(_) => Err(Error::Decode(DecodeError::UnknownVariant { value: s.clone(), enum_name: "OrderStatus", field: None })),
            },
            _ => Err(Error::Decode(DecodeError::Mismatch)),
        }
    }
}

} // verus!
