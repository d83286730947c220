//! The order records: what is sent to the broker and what it answers.
//!
//! Every record lists its fields in wire order. The wire key of a field is
//! its name in kebab-case. A monetary amount always stands beside the price
//! effect that gives it its sign.

use vstd::prelude::*;
use crate::decimal::{decimal_text, Amount, Policy};
use crate::decode::{field, field_decoded, field_failure, lemma_no_item_fails, Decode};
use crate::error::Error;
use crate::json::{member_from, Json};
use crate::symbol::{AccountNumber, OrderId, Symbol};
use crate::wire::{Action, InstrumentType, OrderStatus, OrderType, PriceEffect, TimeInForce};

verus! {

/// A broker-issued advisory.
#[derive(Debug, Clone, PartialEq, Eq)]
pub struct Warning {
    pub code: String,
    pub message: String,
}

impl Decode for Warning {
    open spec fn failure(j: Json) -> Option<Error> {
        if field_failure::<String>(j, "code") is Some {
            field_failure::<String>(j, "code")
        } else if field_failure::<String>(j, "message") is Some {
            field_failure::<String>(j, "message")
        } else {
            None
        }
    }

    open spec fn decoded_from(&self, j: Json) -> bool {
        &&& field_decoded::<String>(&self.code, j, "code")
        &&& field_decoded::<String>(&self.message, j, "message")
    }

    fn decode(j: &Json) -> (r: Result<Self, Error>) {
        let code = match field::<String>(j, "code") {
            Ok(v) => v,
            Err(e) => return Err(e),
        };
        let message = match field::<String>(j, "message") {
            Ok(v) => v,
            Err(e) => return Err(e),
        };
        Ok(Warning { code, message })
    }
}

/// One instrument leg of an order.
#[derive(Debug, Clone, PartialEq, Eq)]
pub struct OrderLeg {
    pub instrument_type: InstrumentType,
    pub symbol: Symbol,
    pub quantity: Amount,
    pub action: Action,
}

impl Decode for OrderLeg {
    open spec fn failure(j: Json) -> Option<Error> {
        if field_failure::<InstrumentType>(j, "instrument-type") is Some {
            field_failure::<InstrumentType>(j, "instrument-type")
        } else if field_failure::<Symbol>(j, "symbol") is Some {
            field_failure::<Symbol>(j, "symbol")
        } else if field_failure::<Amount>(j, "quantity") is Some {
            field_failure::<Amount>(j, "quantity")
        } else if field_failure::<Action>(j, "action") is Some {
            field_failure::<Action>(j, "action")
        } else {
            None
        }
    }

    open spec fn decoded_from(&self, j: Json) -> bool {
        &&& field_decoded::<InstrumentType>(&self.instrument_type, j, "instrument-type")
        &&& field_decoded::<Symbol>(&self.symbol, j, "symbol")
        &&& field_decoded::<Amount>(&self.quantity, j, "quantity")
        &&& field_decoded::<Action>(&self.action, j, "action")
    }

    fn decode(j: &Json) -> (r: Result<Self, Error>) {
        let instrument_type = match field::<InstrumentType>(j, "instrument-type") {
            Ok(v) => v,
            Err(e) => return Err(e),
        };
        let symbol = match field::<Symbol>(j, "symbol") {
            Ok(v) => v,
            Err(e) => return Err(e),
        };
        let quantity = match field::<Amount>(j, "quantity") {
            Ok(v) => v,
            Err(e) => return Err(e),
        };
        let action = match field::<Action>(j, "action") {
            Ok(v) => v,
            Err(e) => return Err(e),
        };
        Ok(OrderLeg { instrument_type, symbol, quantity, action })
    }
}

/// One leg of an order that the broker holds.
#[derive(Debug, Clone, PartialEq, Eq)]
pub struct LiveOrderLeg {
    pub instrument_type: InstrumentType,
    pub symbol: Symbol,
    pub quantity: Amount,
    pub remaining_quantity: Amount,
    pub action: Action,
    pub fills: Vec<String>,
}

impl Decode for LiveOrderLeg {
    open spec fn failure(j: Json) -> Option<Error> {
        if field_failure::<InstrumentType>(j, "instrument-type") is Some {
            field_failure::<InstrumentType>(j, "instrument-type")
        } else if field_failure::<Symbol>(j, "symbol") is Some {
            field_failure::<Symbol>(j, "symbol")
        } else if field_failure::<Amount>(j, "quantity") is Some {
            field_failure::<Amount>(j, "quantity")
        } else if field_failure::<Amount>(j, "remaining-quantity") is Some {
            field_failure::<Amount>(j, "remaining-quantity")
        } else if field_failure::<Action>(j, "action") is Some {
            field_failure::<Action>(j, "action")
        } else if field_failure::<Vec<String>>(j, "fills") is Some {
            field_failure::<Vec<String>>(j, "fills")
        } else {
            None
        }
    }

    open spec fn decoded_from(&self, j: Json) -> bool {
        &&& field_decoded::<InstrumentType>(&self.instrument_type, j, "instrument-type")
        &&& field_decoded::<Symbol>(&self.symbol, j, "symbol")
        &&& field_decoded::<Amount>(&self.quantity, j, "quantity")
        &&& field_decoded::<Amount>(&self.remaining_quantity, j, "remaining-quantity")
        &&& field_decoded::<Action>(&self.action, j, "action")
        &&& field_decoded::<Vec<String>>(&self.fills, j, "fills")
    }

    fn decode(j: &Json) -> (r: Result<Self, Error>) {
        let instrument_type = match field::<InstrumentType>(j, "instrument-type") {
            Ok(v) => v,
            Err(e) => return Err(e),
        };
        let symbol = match field::<Symbol>(j, "symbol") {
            Ok(v) => v,
            Err(e) => return Err(e),
        };
        let quantity = match field::<Amount>(j, "quantity") {
            Ok(v) => v,
            Err(e) => return Err(e),
        };
        let remaining_quantity = match field::<Amount>(j, "remaining-quantity") {
            Ok(v) => v,
            Err(e) => return Err(e),
        };
        let action = match field::<Action>(j, "action") {
            Ok(v) => v,
            Err(e) => return Err(e),
        };
        let fills = match field::<Vec<String>>(j, "fills") {
            Ok(v) => v,
            Err(e) => return Err(e),
        };
        Ok(LiveOrderLeg { instrument_type, symbol, quantity, remaining_quantity, action, fills })
    }
}

/// An order as the broker reports it once placed.
#[derive(Debug, Clone, PartialEq, Eq)]
pub struct LiveOrderRecord {
    pub id: Amount,
    pub account_number: AccountNumber,
    pub time_in_force: TimeInForce,
    pub order_type: OrderType,
    pub size: u64,
    pub underlying_symbol: Symbol,
    pub underlying_instrument_type: InstrumentType,
    pub price: Amount,
    pub price_effect: PriceEffect,
    pub status: OrderStatus,
    pub cancellable: bool,
    pub editable: bool,
    pub edited: bool,
    pub received_at: String,
    pub updated_at: u64,
    pub global_request_id: String,
    pub legs: Vec<LiveOrderLeg>,
}

impl Decode for LiveOrderRecord {
    open spec fn failure(j: Json) -> Option<Error> {
        if field_failure::<Amount>(j, "id") is Some {
            field_failure::<Amount>(j, "id")
        } else if field_failure::<AccountNumber>(j, "account-number") is Some {
            field_failure::<AccountNumber>(j, "account-number")
        } else if field_failure::<TimeInForce>(j, "time-in-force") is Some {
            field_failure::<TimeInForce>(j, "time-in-force")
        } else if field_failure::<OrderType>(j, "order-type") is Some {
            field_failure::<OrderType>(j, "order-type")
        } else if field_failure::<u64>(j, "size") is Some {
            field_failure::<u64>(j, "size")
        } else if field_failure::<Symbol>(j, "underlying-symbol") is Some {
            field_failure::<Symbol>(j, "underlying-symbol")
        } else if field_failure::<InstrumentType>(j, "underlying-instrument-type") is Some {
            field_failure::<InstrumentType>(j, "underlying-instrument-type")
        } else if field_failure::<Amount>(j, "price") is Some {
            field_failure::<Amount>(j, "price")
        } else if field_failure::<PriceEffect>(j, "price-effect") is Some {
            field_failure::<PriceEffect>(j, "price-effect")
        } else if field_failure::<OrderStatus>(j, "status") is Some {
            field_failure::<OrderStatus>(j, "status")
        } else if field_failure::<bool>(j, "cancellable") is Some {
            field_failure::<bool>(j, "cancellable")
        } else if field_failure::<bool>(j, "editable") is Some {
            field_failure::<bool>(j, "editable")
        } else if field_failure::<bool>(j, "edited") is Some {
            field_failure::<bool>(j, "edited")
        } else if field_failure::<String>(j, "received-at") is Some {
            field_failure::<String>(j, "received-at")
        } else if field_failure::<u64>(j, "updated-at") is Some {
            field_failure::<u64>(j, "updated-at")
        } else if field_failure::<String>(j, "global-request-id") is Some {
            field_failure::<String>(j, "global-request-id")
        } else if field_failure::<Vec<LiveOrderLeg>>(j, "legs") is Some {
            field_failure::<Vec<LiveOrderLeg>>(j, "legs")
        } else {
            None
        }
    }

    open spec fn decoded_from(&self, j: Json) -> bool {
        &&& field_decoded::<Amount>(&self.id, j, "id")
        &&& field_decoded::<AccountNumber>(&self.account_number, j, "account-number")
        &&& field_decoded::<TimeInForce>(&self.time_in_force, j, "time-in-force")
        &&& field_decoded::<OrderType>(&self.order_type, j, "order-type")
        &&& field_decoded::<u64>(&self.size, j, "size")
        &&& field_decoded::<Symbol>(&self.underlying_symbol, j, "underlying-symbol")
        &&& field_decoded::<InstrumentType>(&self.underlying_instrument_type, j, "underlying-instrument-type")
        &&& field_decoded::<Amount>(&self.price, j, "price")
        &&& field_decoded::<PriceEffect>(&self.price_effect, j, "price-effect")
        &&& field_decoded::<OrderStatus>(&self.status, j, "status")
        &&& field_decoded::<bool>(&self.cancellable, j, "cancellable")
        &&& field_decoded::<bool>(&self.editable, j, "editable")
        &&& field_decoded::<bool>(&self.edited, j, "edited")
        &&& field_decoded::<String>(&self.received_at, j, "received-at")
        &&& field_decoded::<u64>(&self.updated_at, j, "updated-at")
        &&& field_decoded::<String>(&self.global_request_id, j, "global-request-id")
        &&& field_decoded::<Vec<LiveOrderLeg>>(&self.legs, j, "legs")
    }

    fn decode(j: &Json) -> (r: Result<Self, Error>) {
        let id = match field::<Amount>(j, "id") {
            Ok(v) => v,
            Err(e) => return Err(e),
        };
        let account_number = match field::<AccountNumber>(j, "account-number") {
            Ok(v) => v,
            Err(e) => return Err(e),
        };
        let time_in_force = match field::<TimeInForce>(j, "time-in-force") {
            Ok(v) => v,
            Err(e) => return Err(e),
        };
        let order_type = match field::<OrderType>(j, "order-type") {
            Ok(v) => v,
            Err(e) => return Err(e),
        };
        let size = match field::<u64>(j, "size") {
            Ok(v) => v,
            Err(e) => return Err(e),
        };
        let underlying_symbol = match field::<Symbol>(j, "underlying-symbol") {
            Ok(v) => v,
            Err(e) => return Err(e),
        };
        let underlying_instrument_type = match field::<InstrumentType>(j, "underlying-instrument-type") {
            Ok(v) => v,
            Err(e) => return Err(e),
        };
        let price = match field::<Amount>(j, "price") {
            Ok(v) => v,
            Err(e) => return Err(e),
        };
        let price_effect = match field::<PriceEffect>(j, "price-effect") {
            Ok(v) => v,
            Err(e) => return Err(e),
        };
        let status = match field::<OrderStatus>(j, "status") {
            Ok(v) => v,
            Err(e) => return Err(e),
        };
        let cancellable = match field::<bool>(j, "cancellable") {
            Ok(v) => v,
            Err(e) => return Err(e),
        };
        let editable = match field::<bool>(j, "editable") {
            Ok(v) => v,
            Err(e) => return Err(e),
        };
        let edited = match field::<bool>(j, "edited") {
            Ok(v) => v,
            Err(e) => return Err(e),
        };
        let received_at = match field::<String>(j, "received-at") {
            Ok(v) => v,
            Err(e) => return Err(e),
        };
        let updated_at = match field::<u64>(j, "updated-at") {
            Ok(v) => v,
            Err(e) => return Err(e),
        };
        let global_request_id = match field::<String>(j, "global-request-id") {
            Ok(v) => v,
            Err(e) => return Err(e),
        };
        let legs = match field::<Vec<LiveOrderLeg>>(j, "legs") {
            Ok(v) => v,
            Err(e) => return Err(e),
        };
        Ok(LiveOrderRecord { id, account_number, time_in_force, order_type, size, underlying_symbol, underlying_instrument_type, price, price_effect, status, cancellable, editable, edited, received_at, updated_at, global_request_id, legs })
    }
}

/// An order as the broker previews it.
#[derive(Debug, Clone, PartialEq, Eq)]
pub struct DryRunRecord {
    pub account_number: AccountNumber,
    pub time_in_force: TimeInForce,
    pub order_type: OrderType,
    pub size: u64,
    pub underlying_symbol: Symbol,
    pub price: Amount,
    pub price_effect: PriceEffect,
    pub status: OrderStatus,
    pub cancellable: bool,
    pub editable: bool,
    pub edited: bool,
    pub legs: Vec<OrderLeg>,
}

impl Decode for DryRunRecord {
    open spec fn failure(j: Json) -> Option<Error> {
        if field_failure::<AccountNumber>(j, "account-number") is Some {
            field_failure::<AccountNumber>(j, "account-number")
        } else if field_failure::<TimeInForce>(j, "time-in-force") is Some {
            field_failure::<TimeInForce>(j, "time-in-force")
        } else if field_failure::<OrderType>(j, "order-type") is Some {
            field_failure::<OrderType>(j, "order-type")
        } else if field_failure::<u64>(j, "size") is Some {
            field_failure::<u64>(j, "size")
        } else if field_failure::<Symbol>(j, "underlying-symbol") is Some {
            field_failure::<Symbol>(j, "underlying-symbol")
        } else if field_failure::<Amount>(j, "price") is Some {
            field_failure::<Amount>(j, "price")
        } else if field_failure::<PriceEffect>(j, "price-effect") is Some {
            field_failure::<PriceEffect>(j, "price-effect")
        } else if field_failure::<OrderStatus>(j, "status") is Some {
            field_failure::<OrderStatus>(j, "status")
        } else if field_failure::<bool>(j, "cancellable") is Some {
            field_failure::<bool>(j, "cancellable")
        } else if field_failure::<bool>(j, "editable") is Some {
            field_failure::<bool>(j, "editable")
        } else if field_failure::<bool>(j, "edited") is Some {
            field_failure::<bool>(j, "edited")
        } else if field_failure::<Vec<OrderLeg>>(j, "legs") is Some {
            field_failure::<Vec<OrderLeg>>(j, "legs")
        } else {
            None
        }
    }

    open spec fn decoded_from(&self, j: Json) -> bool {
        &&& field_decoded::<AccountNumber>(&self.account_number, j, "account-number")
        &&& field_decoded::<TimeInForce>(&self.time_in_force, j, "time-in-force")
        &&& field_decoded::<OrderType>(&self.order_type, j, "order-type")
        &&& field_decoded::<u64>(&self.size, j, "size")
        &&& field_decoded::<Symbol>(&self.underlying_symbol, j, "underlying-symbol")
        &&& field_decoded::<Amount>(&self.price, j, "price")
        &&& field_decoded::<PriceEffect>(&self.price_effect, j, "price-effect")
        &&& field_decoded::<OrderStatus>(&self.status, j, "status")
        &&& field_decoded::<bool>(&self.cancellable, j, "cancellable")
        &&& field_decoded::<bool>(&self.editable, j, "editable")
        &&& field_decoded::<bool>(&self.edited, j, "edited")
        &&& field_decoded::<Vec<OrderLeg>>(&self.legs, j, "legs")
    }

    fn decode(j: &Json) -> (r: Result<Self, Error>) {
        let account_number = match field::<AccountNumber>(j, "account-number") {
            Ok(v) => v,
            Err(e) => return Err(e),
        };
        let time_in_force = match field::<TimeInForce>(j, "time-in-force") {
            Ok(v) => v,
            Err(e) => return Err(e),
        };
        let order_type = match field::<OrderType>(j, "order-type") {
            Ok(v) => v,
            Err(e) => return Err(e),
        };
        let size = match field::<u64>(j, "size") {
            Ok(v) => v,
            Err(e) => return Err(e),
        };
        let underlying_symbol = match field::<Symbol>(j, "underlying-symbol") {
            Ok(v) => v,
            Err(e) => return Err(e),
        };
        let price = match field::<Amount>(j, "price") {
            Ok(v) => v,
            Err(e) => return Err(e),
        };
        let price_effect = match field::<PriceEffect>(j, "price-effect") {
            Ok(v) => v,
            Err(e) => return Err(e),
        };
        let status = match field::<OrderStatus>(j, "status") {
            Ok(v) => v,
            Err(e) => return Err(e),
        };
        let cancellable = match field::<bool>(j, "cancellable") {
            Ok(v) => v,
            Err(e) => return Err(e),
        };
        let editable = match field::<bool>(j, "editable") {
            Ok(v) => v,
            Err(e) => return Err(e),
        };
        let edited = match field::<bool>(j, "edited") {
            Ok(v) => v,
            Err(e) => return Err(e),
        };
        let legs = match field::<Vec<OrderLeg>>(j, "legs") {
            Ok(v) => v,
            Err(e) => return Err(e),
        };
        Ok(DryRunRecord { account_number, time_in_force, order_type, size, underlying_symbol, price, price_effect, status, cancellable, editable, edited, legs })
    }
}

/// A fully materialized order; its size is an exact decimal.
#[derive(Debug, Clone, PartialEq, Eq)]
pub struct FullOrder {
    pub id: OrderId,
    pub account_number: AccountNumber,
    pub time_in_force: TimeInForce,
    pub order_type: OrderType,
    pub size: Amount,
    pub underlying_symbol: Symbol,
    pub price: Amount,
    pub price_effect: PriceEffect,
    pub status: OrderStatus,
    pub cancellable: bool,
    pub editable: bool,
    pub edited: bool,
    pub legs: Vec<OrderLeg>,
}

impl Decode for FullOrder {
    open spec fn failure(j: Json) -> Option<Error> {
        if field_failure::<OrderId>(j, "id") is Some {
            field_failure::<OrderId>(j, "id")
        } else if field_failure::<AccountNumber>(j, "account-number") is Some {
            field_failure::<AccountNumber>(j, "account-number")
        } else if field_failure::<TimeInForce>(j, "time-in-force") is Some {
            field_failure::<TimeInForce>(j, "time-in-force")
        } else if field_failure::<OrderType>(j, "order-type") is Some {
            field_failure::<OrderType>(j, "order-type")
        } else if field_failure::<Amount>(j, "size") is Some {
            field_failure::<Amount>(j, "size")
        } else if field_failure::<Symbol>(j, "underlying-symbol") is Some {
            field_failure::<Symbol>(j, "underlying-symbol")
        } else if field_failure::<Amount>(j, "price") is Some {
            field_failure::<Amount>(j, "price")
        } else if field_failure::<PriceEffect>(j, "price-effect") is Some {
            field_failure::<PriceEffect>(j, "price-effect")
        } else if field_failure::<OrderStatus>(j, "status") is Some {
            field_failure::<OrderStatus>(j, "status")
        } else if field_failure::<bool>(j, "cancellable") is Some {
            field_failure::<bool>(j, "cancellable")
        } else if field_failure::<bool>(j, "editable") is Some {
            field_failure::<bool>(j, "editable")
        } else if field_failure::<bool>(j, "edited") is Some {
            field_failure::<bool>(j, "edited")
        } else if field_failure::<Vec<OrderLeg>>(j, "legs") is Some {
            field_failure::<Vec<OrderLeg>>(j, "legs")
        } else {
            None
        }
    }

    open spec fn decoded_from(&self, j: Json) -> bool {
        &&& field_decoded::<OrderId>(&self.id, j, "id")
        &&& field_decoded::<AccountNumber>(&self.account_number, j, "account-number")
        &&& field_decoded::<TimeInForce>(&self.time_in_force, j, "time-in-force")
        &&& field_decoded::<OrderType>(&self.order_type, j, "order-type")
        &&& field_decoded::<Amount>(&self.size, j, "size")
        &&& field_decoded::<Symbol>(&self.underlying_symbol, j, "underlying-symbol")
        &&& field_decoded::<Amount>(&self.price, j, "price")
        &&& field_decoded::<PriceEffect>(&self.price_effect, j, "price-effect")
        &&& field_decoded::<OrderStatus>(&self.status, j, "status")
        &&& field_decoded::<bool>(&self.cancellable, j, "cancellable")
        &&& field_decoded::<bool>(&self.editable, j, "editable")
        &&& field_decoded::<bool>(&self.edited, j, "edited")
        &&& field_decoded::<Vec<OrderLeg>>(&self.legs, j, "legs")
    }

    fn decode(j: &Json) -> (r: Result<Self, Error>) {
        let id = match field::<OrderId>(j, "id") {
            Ok(v) => v,
            Err(e) => return Err(e),
        };
        let account_number = match field::<AccountNumber>(j, "account-number") {
            Ok(v) => v,
            Err(e) => return Err(e),
        };
        let time_in_force = match field::<TimeInForce>(j, "time-in-force") {
            Ok(v) => v,
            Err(e) => return Err(e),
        };
        let order_type = match field::<OrderType>(j, "order-type") {
            Ok(v) => v,
            Err(e) => return Err(e),
        };
        let size = match field::<Amount>(j, "size") {
            Ok(v) => v,
            Err(e) => return Err(e),
        };
        let underlying_symbol = match field::<Symbol>(j, "underlying-symbol") {
            Ok(v) => v,
            Err(e) => return Err(e),
        };
        let price = match field::<Amount>(j, "price") {
            Ok(v) => v,
            Err(e) => return Err(e),
        };
        let price_effect = match field::<PriceEffect>(j, "price-effect") {
            Ok(v) => v,
            Err(e) => return Err(e),
        };
        let status = match field::<OrderStatus>(j, "status") {
            Ok(v) => v,
            Err(e) => return Err(e),
        };
        let cancellable = match field::<bool>(j, "cancellable") {
            Ok(v) => v,
            Err(e) => return Err(e),
        };
        let editable = match field::<bool>(j, "editable") {
            Ok(v) => v,
            Err(e) => return Err(e),
        };
        let edited = match field::<bool>(j, "edited") {
            Ok(v) => v,
            Err(e) => return Err(e),
        };
        let legs = match field::<Vec<OrderLeg>>(j, "legs") {
            Ok(v) => v,
            Err(e) => return Err(e),
        };
        Ok(FullOrder { id, account_number, time_in_force, order_type, size, underlying_symbol, price, price_effect, status, cancellable, editable, edited, legs })
    }
}

/// The change in collateral that an order causes; every amount with its effect.
#[derive(Debug, Clone, PartialEq, Eq)]
pub struct BuyingPowerEffect {
    pub change_in_margin_requirement: Amount,
    pub change_in_margin_requirement_effect: PriceEffect,
    pub change_in_buying_power: Amount,
    pub change_in_buying_power_effect: PriceEffect,
    pub current_buying_power: Amount,
    pub current_buying_power_effect: PriceEffect,
    pub new_buying_power: Amount,
    pub new_buying_power_effect: PriceEffect,
    pub isolated_order_margin_requirement: Amount,
    pub isolated_order_margin_requirement_effect: PriceEffect,
    pub is_spread: bool,
    pub impact: Amount,
    pub effect: PriceEffect,
}

impl Decode for BuyingPowerEffect {
    open spec fn failure(j: Json) -> Option<Error> {
        if field_failure::<Amount>(j, "change-in-margin-requirement") is Some {
            field_failure::<Amount>(j, "change-in-margin-requirement")
        } else if field_failure::<PriceEffect>(j, "change-in-margin-requirement-effect") is Some {
            field_failure::<PriceEffect>(j, "change-in-margin-requirement-effect")
        } else if field_failure::<Amount>(j, "change-in-buying-power") is Some {
            field_failure::<Amount>(j, "change-in-buying-power")
        } else if field_failure::<PriceEffect>(j, "change-in-buying-power-effect") is Some {
            field_failure::<PriceEffect>(j, "change-in-buying-power-effect")
        } else if field_failure::<Amount>(j, "current-buying-power") is Some {
            field_failure::<Amount>(j, "current-buying-power")
        } else if field_failure::<PriceEffect>(j, "current-buying-power-effect") is Some {
            field_failure::<PriceEffect>(j, "current-buying-power-effect")
        } else if field_failure::<Amount>(j, "new-buying-power") is Some {
            field_failure::<Amount>(j, "new-buying-power")
        } else if field_failure::<PriceEffect>(j, "new-buying-power-effect") is Some {
            field_failure::<PriceEffect>(j, "new-buying-power-effect")
        } else if field_failure::<Amount>(j, "isolated-order-margin-requirement") is Some {
            field_failure::<Amount>(j, "isolated-order-margin-requirement")
        } else if field_failure::<PriceEffect>(j, "isolated-order-margin-requirement-effect") is Some {
            field_failure::<PriceEffect>(j, "isolated-order-margin-requirement-effect")
        } else if field_failure::<bool>(j, "is-spread") is Some {
            field_failure::<bool>(j, "is-spread")
        } else if field_failure::<Amount>(j, "impact") is Some {
            field_failure::<Amount>(j, "impact")
        } else if field_failure::<PriceEffect>(j, "effect") is Some {
            field_failure::<PriceEffect>(j, "effect")
        } else {
            None
        }
    }

    open spec fn decoded_from(&self, j: Json) -> bool {
        &&& field_decoded::<Amount>(&self.change_in_margin_requirement, j, "change-in-margin-requirement")
        &&& field_decoded::<PriceEffect>(&self.change_in_margin_requirement_effect, j, "change-in-margin-requirement-effect")
        &&& field_decoded::<Amount>(&self.change_in_buying_power, j, "change-in-buying-power")
        &&& field_decoded::<PriceEffect>(&self.change_in_buying_power_effect, j, "change-in-buying-power-effect")
        &&& field_decoded::<Amount>(&self.current_buying_power, j, "current-buying-power")
        &&& field_decoded::<PriceEffect>(&self.current_buying_power_effect, j, "current-buying-power-effect")
        &&& field_decoded::<Amount>(&self.new_buying_power, j, "new-buying-power")
        &&& field_decoded::<PriceEffect>(&self.new_buying_power_effect, j, "new-buying-power-effect")
        &&& field_decoded::<Amount>(&self.isolated_order_margin_requirement, j, "isolated-order-margin-requirement")
        &&& field_decoded::<PriceEffect>(&self.isolated_order_margin_requirement_effect, j, "isolated-order-margin-requirement-effect")
        &&& field_decoded::<bool>(&self.is_spread, j, "is-spread")
        &&& field_decoded::<Amount>(&self.impact, j, "impact")
        &&& field_decoded::<PriceEffect>(&self.effect, j, "effect")
    }

    fn decode(j: &Json) -> (r: Result<Self, Error>) {
        let change_in_margin_requirement = match field::<Amount>(j, "change-in-margin-requirement") {
            Ok(v) => v,
            Err(e) => return Err(e),
        };
        let change_in_margin_requirement_effect = match field::<PriceEffect>(j, "change-in-margin-requirement-effect") {
            Ok(v) => v,
            Err(e) => return Err(e),
        };
        let change_in_buying_power = match field::<Amount>(j, "change-in-buying-power") {
            Ok(v) => v,
            Err(e) => return Err(e),
        };
        let change_in_buying_power_effect = match field::<PriceEffect>(j, "change-in-buying-power-effect") {
            Ok(v) => v,
            Err(e) => return Err(e),
        };
        let current_buying_power = match field::<Amount>(j, "current-buying-power") {
            Ok(v) => v,
            Err(e) => return Err(e),
        };
        let current_buying_power_effect = match field::<PriceEffect>(j, "current-buying-power-effect") {
            Ok(v) => v,
            Err(e) => return Err(e),
        };
        let new_buying_power = match field::<Amount>(j, "new-buying-power") {
            Ok(v) => v,
            Err(e) => return Err(e),
        };
        let new_buying_power_effect = match field::<PriceEffect>(j, "new-buying-power-effect") {
            Ok(v) => v,
            Err(e) => return Err(e),
        };
        let isolated_order_margin_requirement = match field::<Amount>(j, "isolated-order-margin-requirement") {
            Ok(v) => v,
            Err(e) => return Err(e),
        };
        let isolated_order_margin_requirement_effect = match field::<PriceEffect>(j, "isolated-order-margin-requirement-effect") {
            Ok(v) => v,
            Err(e) => return Err(e),
        };
        let is_spread = match field::<bool>(j, "is-spread") {
            Ok(v) => v,
            Err(e) => return Err(e),
        };
        let impact = match field::<Amount>(j, "impact") {
            Ok(v) => v,
            Err(e) => return Err(e),
        };
        let effect = match field::<PriceEffect>(j, "effect") {
            Ok(v) => v,
            Err(e) => return Err(e),
        };
        Ok(BuyingPowerEffect { change_in_margin_requirement, change_in_margin_requirement_effect, change_in_buying_power, change_in_buying_power_effect, current_buying_power, current_buying_power_effect, new_buying_power, new_buying_power_effect, isolated_order_margin_requirement, isolated_order_margin_requirement_effect, is_spread, impact, effect })
    }
}

/// The fee components of an order; every amount with its effect.
#[derive(Debug, Clone, PartialEq, Eq)]
pub struct FeeCalculation {
    pub regulatory_fees: Amount,
    pub regulatory_fees_effect: PriceEffect,
    pub clearing_fees: Amount,
    pub clearing_fees_effect: PriceEffect,
    pub commission: Amount,
    pub commission_effect: PriceEffect,
    pub proprietary_index_option_fees: Amount,
    pub proprietary_index_option_fees_effect: PriceEffect,
    pub total_fees: Amount,
    pub total_fees_effect: PriceEffect,
}

impl Decode for FeeCalculation {
    open spec fn failure(j: Json) -> Option<Error> {
        if field_failure::<Amount>(j, "regulatory-fees") is Some {
            field_failure::<Amount>(j, "regulatory-fees")
        } else if field_failure::<PriceEffect>(j, "regulatory-fees-effect") is Some {
            field_failure::<PriceEffect>(j, "regulatory-fees-effect")
        } else if field_failure::<Amount>(j, "clearing-fees") is Some {
            field_failure::<Amount>(j, "clearing-fees")
        } else if field_failure::<PriceEffect>(j, "clearing-fees-effect") is Some {
            field_failure::<PriceEffect>(j, "clearing-fees-effect")
        } else if field_failure::<Amount>(j, "commission") is Some {
            field_failure::<Amount>(j, "commission")
        } else if field_failure::<PriceEffect>(j, "commission-effect") is Some {
            field_failure::<PriceEffect>(j, "commission-effect")
        } else if field_failure::<Amount>(j, "proprietary-index-option-fees") is Some {
            field_failure::<Amount>(j, "proprietary-index-option-fees")
        } else if field_failure::<PriceEffect>(j, "proprietary-index-option-fees-effect") is Some {
            field_failure::<PriceEffect>(j, "proprietary-index-option-fees-effect")
        } else if field_failure::<Amount>(j, "total-fees") is Some {
            field_failure::<Amount>(j, "total-fees")
        } else if field_failure::<PriceEffect>(j, "total-fees-effect") is Some {
            field_failure::<PriceEffect>(j, "total-fees-effect")
        } else {
            None
        }
    }

    open spec fn decoded_from(&self, j: Json) -> bool {
        &&& field_decoded::<Amount>(&self.regulatory_fees, j, "regulatory-fees")
        &&& field_decoded::<PriceEffect>(&self.regulatory_fees_effect, j, "regulatory-fees-effect")
        &&& field_decoded::<Amount>(&self.clearing_fees, j, "clearing-fees")
        &&& field_decoded::<PriceEffect>(&self.clearing_fees_effect, j, "clearing-fees-effect")
        &&& field_decoded::<Amount>(&self.commission, j, "commission")
        &&& field_decoded::<PriceEffect>(&self.commission_effect, j, "commission-effect")
        &&& field_decoded::<Amount>(&self.proprietary_index_option_fees, j, "proprietary-index-option-fees")
        &&& field_decoded::<PriceEffect>(&self.proprietary_index_option_fees_effect, j, "proprietary-index-option-fees-effect")
        &&& field_decoded::<Amount>(&self.total_fees, j, "total-fees")
        &&& field_decoded::<PriceEffect>(&self.total_fees_effect, j, "total-fees-effect")
    }

    fn decode(j: &Json) -> (r: Result<Self, Error>) {
        let regulatory_fees = match field::<Amount>(j, "regulatory-fees") {
            Ok(v) => v,
            Err(e) => return Err(e),
        };
        let regulatory_fees_effect = match field::<PriceEffect>(j, "regulatory-fees-effect") {
            Ok(v) => v,
            Err(e) => return Err(e),
        };
        let clearing_fees = match field::<Amount>(j, "clearing-fees") {
            Ok(v) => v,
            Err(e) => return Err(e),
        };
        let clearing_fees_effect = match field::<PriceEffect>(j, "clearing-fees-effect") {
            Ok(v) => v,
            Err(e) => return Err(e),
        };
        let commission = match field::<Amount>(j, "commission") {
            Ok(v) => v,
            Err(e) => return Err(e),
        };
        let commission_effect = match field::<PriceEffect>(j, "commission-effect") {
            Ok(v) => v,
            Err(e) => return Err(e),
        };
        let proprietary_index_option_fees = match field::<Amount>(j, "proprietary-index-option-fees") {
            Ok(v) => v,
            Err(e) => return Err(e),
        };
        let proprietary_index_option_fees_effect = match field::<PriceEffect>(j, "proprietary-index-option-fees-effect") {
            Ok(v) => v,
            Err(e) => return Err(e),
        };
        let total_fees = match field::<Amount>(j, "total-fees") {
            Ok(v) => v,
            Err(e) => return Err(e),
        };
        let total_fees_effect = match field::<PriceEffect>(j, "total-fees-effect") {
            Ok(v) => v,
            Err(e) => return Err(e),
        };
        Ok(FeeCalculation { regulatory_fees, regulatory_fees_effect, clearing_fees, clearing_fees_effect, commission, commission_effect, proprietary_index_option_fees, proprietary_index_option_fees_effect, total_fees, total_fees_effect })
    }
}

/// What the broker answers when an order is placed.
#[derive(Debug, Clone, PartialEq, Eq)]
pub struct OrderPlacedResult {
    pub order: LiveOrderRecord,
    pub warnings: Vec<Warning>,
    pub buying_power_effect: BuyingPowerEffect,
    pub fee_calculation: FeeCalculation,
}

impl Decode for OrderPlacedResult {
    open spec fn failure(j: Json) -> Option<Error> {
        if field_failure::<LiveOrderRecord>(j, "order") is Some {
            field_failure::<LiveOrderRecord>(j, "order")
        } else if field_failure::<Vec<Warning>>(j, "warnings") is Some {
            field_failure::<Vec<Warning>>(j, "warnings")
        } else if field_failure::<BuyingPowerEffect>(j, "buying-power-effect") is Some {
            field_failure::<BuyingPowerEffect>(j, "buying-power-effect")
        } else if field_failure::<FeeCalculation>(j, "fee-calculation") is Some {
            field_failure::<FeeCalculation>(j, "fee-calculation")
        } else {
            None
        }
    }

    open spec fn decoded_from(&self, j: Json) -> bool {
        &&& field_decoded::<LiveOrderRecord>(&self.order, j, "order")
        &&& field_decoded::<Vec<Warning>>(&self.warnings, j, "warnings")
        &&& field_decoded::<BuyingPowerEffect>(&self.buying_power_effect, j, "buying-power-effect")
        &&& field_decoded::<FeeCalculation>(&self.fee_calculation, j, "fee-calculation")
    }

    fn decode(j: &Json) -> (r: Result<Self, Error>) {
        let order = match field::<LiveOrderRecord>(j, "order") {
            Ok(v) => v,
            Err(e) => return Err(e),
        };
        let warnings = match field::<Vec<Warning>>(j, "warnings") {
            Ok(v) => v,
            Err(e) => return Err(e),
        };
        let buying_power_effect = match field::<BuyingPowerEffect>(j, "buying-power-effect") {
            Ok(v) => v,
            Err(e) => return Err(e),
        };
        let fee_calculation = match field::<FeeCalculation>(j, "fee-calculation") {
            Ok(v) => v,
            Err(e) => return Err(e),
        };
        Ok(OrderPlacedResult { order, warnings, buying_power_effect, fee_calculation })
    }
}

/// What the broker answers when an order is previewed.
#[derive(Debug, Clone, PartialEq, Eq)]
pub struct DryRunResult {
    pub order: DryRunRecord,
    pub warnings: Vec<Warning>,
    pub buying_power_effect: BuyingPowerEffect,
    pub fee_calculation: FeeCalculation,
}

impl Decode for DryRunResult {
    open spec fn failure(j: Json) -> Option<Error> {
        if field_failure::<DryRunRecord>(j, "order") is Some {
            field_failure::<DryRunRecord>(j, "order")
        } else if field_failure::<Vec<Warning>>(j, "warnings") is Some {
            field_failure::<Vec<Warning>>(j, "warnings")
        } else if field_failure::<BuyingPowerEffect>(j, "buying-power-effect") is Some {
            field_failure::<BuyingPowerEffect>(j, "buying-power-effect")
        } else if field_failure::<FeeCalculation>(j, "fee-calculation") is Some {
            field_failure::<FeeCalculation>(j, "fee-calculation")
        } else {
            None
        }
    }

    open spec fn decoded_from(&self, j: Json) -> bool {
        &&& field_decoded::<DryRunRecord>(&self.order, j, "order")
        &&& field_decoded::<Vec<Warning>>(&self.warnings, j, "warnings")
        &&& field_decoded::<BuyingPowerEffect>(&self.buying_power_effect, j, "buying-power-effect")
        &&& field_decoded::<FeeCalculation>(&self.fee_calculation, j, "fee-calculation")
    }

    fn decode(j: &Json) -> (r: Result<Self, Error>) {
        let order = match field::<DryRunRecord>(j, "order") {
            Ok(v) => v,
            Err(e) => return Err(e),
        };
        let warnings = match field::<Vec<Warning>>(j, "warnings") {
            Ok(v) => v,
            Err(e) => return Err(e),
        };
        let buying_power_effect = match field::<BuyingPowerEffect>(j, "buying-power-effect") {
            Ok(v) => v,
            Err(e) => return Err(e),
        };
        let fee_calculation = match field::<FeeCalculation>(j, "fee-calculation") {
            Ok(v) => v,
            Err(e) => return Err(e),
        };
        Ok(DryRunResult { order, warnings, buying_power_effect, fee_calculation })
    }
}

/// An order to submit. Every field is mandatory; `OrderBuilder` makes one.
#[derive(Debug, Clone, PartialEq, Eq)]
pub struct Order {
    pub time_in_force: TimeInForce,
    pub order_type: OrderType,
    pub price: Amount,
    pub price_effect: PriceEffect,
    pub legs: Vec<OrderLeg>,
}

/// Whether `entry` is the member `key` with a value that is the JSON string `text`.
pub open spec fn text_member(entry: (String, Json), key: Seq<char>, text: Seq<char>) -> bool {
    entry.0@ == key && (entry.1 matches Json::Text(s) && s@ == text)
}

impl OrderLeg {
    /// Whether the leg's amount can be written.
    pub open spec fn well_formed(&self) -> bool {
        self.quantity.well_formed()
    }

    /// Whether `j` is the wire form of the leg: an object of its four
    /// fields in order, the quantity as a number.
    pub open spec fn encoded_as(&self, j: Json) -> bool {
        j matches Json::Object(m) && m@.len() == 4
            && text_member(m@[0], "instrument-type"@, self.instrument_type.wire())
            && text_member(m@[1], "symbol"@, self.symbol.0@)
            && m@[2].0@ == "quantity"@ && self.quantity.encoded_as(Policy::Float, m@[2].1)
            && text_member(m@[3], "action"@, self.action.wire())
    }

    /// Encodes the leg.
    pub fn to_json(&self) -> (j: Json)
        requires
            self.well_formed(),
        ensures
            self.encoded_as(j),
    {
        let mut m: Vec<(String, Json)> = Vec::new();
        m.push(("instrument-type".to_owned(), self.instrument_type.to_json()));
        m.push(("symbol".to_owned(), self.symbol.to_json()));
        m.push(("quantity".to_owned(), self.quantity.encode(Policy::Float)));
        m.push(("action".to_owned(), self.action.to_json()));
        Json::Object(m)
    }
}

/// The wire form of a leg decodes, and to that leg, provided that the
/// decimal text of its quantity reads back as the quantity.
pub proof fn lemma_leg_round_trip(leg: OrderLeg, j: Json)
    requires
        leg.well_formed(),
        leg.encoded_as(j),
        Amount::of_text(decimal_text(leg.quantity)) == Some(leg.quantity),
    ensures
        OrderLeg::failure(j) is None,
        leg.decoded_from(j),
{
    reveal_strlit("instrument-type");
    reveal_strlit("symbol");
    reveal_strlit("quantity");
    reveal_strlit("action");
    assert("instrument-type"@.len() == 15);
    assert("symbol"@.len() == 6);
    assert("quantity"@.len() == 8);
    assert("action"@.len() == 6);
    assert("symbol"@[0] != "action"@[0]);
    reveal_with_fuel(member_from, 5);
    let m = j->Object_0@;
    assert(j.member("instrument-type"@) == Some(m[0].1));
    assert(j.member("symbol"@) == Some(m[1].1));
    assert(j.member("quantity"@) == Some(m[2].1));
    assert(j.member("action"@) == Some(m[3].1));
    InstrumentType::lemma_json_round_trip(leg.instrument_type, m[0].1);
    Action::lemma_json_round_trip(leg.action, m[3].1);
}

/// The wire form of an order's legs decodes, and to those legs, provided
/// that the decimal text of every quantity reads back as the quantity.
pub proof fn lemma_legs_round_trip(order: Order, j: Json)
    requires
        order.well_formed(),
        order.legs_encoded_as(j),
        forall|k: int|
            0 <= k < order.legs@.len() ==> Amount::of_text(decimal_text((#[trigger] order.legs@[k]).quantity))
                == Some(order.legs@[k].quantity),
    ensures
        Vec::<OrderLeg>::failure(j) is None,
        order.legs.decoded_from(j),
{
    let items = j->Array_0@;
    assert forall|k: int| 0 <= k < items.len() implies OrderLeg::failure(#[trigger] items[k]) is None
        && order.legs@[k].decoded_from(items[k]) by {
        assert(order.legs@[k].well_formed());
        lemma_leg_round_trip(order.legs@[k], items[k]);
    }
    lemma_no_item_fails::<OrderLeg>(items, 0);
}

impl Order {
    /// Whether every amount of the order can be written.
    pub open spec fn well_formed(&self) -> bool {
        self.price.well_formed() && forall|k: int|
            0 <= k < self.legs@.len() ==> (#[trigger] self.legs@[k]).well_formed()
    }

    /// Whether `items` are the wire forms of the order's legs, in order.
    pub open spec fn legs_encoded_as(&self, j: Json) -> bool {
        j matches Json::Array(items) && items@.len() == self.legs@.len() && forall|k: int|
            0 <= k < self.legs@.len() ==> (#[trigger] self.legs@[k]).encoded_as(items@[k])
    }

    /// Whether `j` is the wire form of the order: an object of its five
    /// fields in order, the price as a string that keeps its scale.
    pub open spec fn encoded_as(&self, j: Json) -> bool {
        j matches Json::Object(m) && m@.len() == 5
            && text_member(m@[0], "time-in-force"@, self.time_in_force.wire())
            && text_member(m@[1], "order-type"@, self.order_type.wire())
            && m@[2].0@ == "price"@ && self.price.encoded_as(Policy::ArbitraryPrecision, m@[2].1)
            && text_member(m@[3], "price-effect"@, self.price_effect.wire())
            && m@[4].0@ == "legs"@ && self.legs_encoded_as(m@[4].1)
    }

    /// Whether every amount of the order can be written.
    pub fn is_well_formed(&self) -> (r: bool)
        ensures
            r == self.well_formed(),
    {
        if !self.price.is_well_formed() {
            return false;
        }
        let mut i: usize = 0;
        while i < self.legs.len()
            invariant
                i <= self.legs.len(),
                forall|k: int| 0 <= k < i ==> (#[trigger] self.legs@[k]).well_formed(),
            decreases self.legs.len() - i,
        {
            if !self.legs[i].quantity.is_well_formed() {
                return false;
            }
            i += 1;
        }
        true
    }

    /// Encodes the order.
    pub fn to_json(&self) -> (j: Json)
        requires
            self.well_formed(),
        ensures
            self.encoded_as(j),
    {
        let mut items: Vec<Json> = Vec::new();
        let mut i: usize = 0;
        while i < self.legs.len()
            invariant
                i <= self.legs.len(),
                items@.len() == i,
                self.well_formed(),
                forall|k: int| 0 <= k < i ==> (#[trigger] self.legs@[k]).encoded_as(items@[k]),
            decreases self.legs.len() - i,
        {
            items.push(self.legs[i].to_json());
            i += 1;
        }
        let mut m: Vec<(String, Json)> = Vec::new();
        m.push(("time-in-force".to_owned(), self.time_in_force.to_json()));
        m.push(("order-type".to_owned(), self.order_type.to_json()));
        m.push(("price".to_owned(), self.price.encode(Policy::ArbitraryPrecision)));
        m.push(("price-effect".to_owned(), self.price_effect.to_json()));
        m.push(("legs".to_owned(), Json::Array(items)));
        Json::Object(m)
    }
}

/// Collects the fields of an `Order`; any of them may still be unset.
#[derive(Debug, Clone, PartialEq, Eq)]
pub struct OrderBuilder {
    pub time_in_force: Option<TimeInForce>,
    pub order_type: Option<OrderType>,
    pub price: Option<Amount>,
    pub price_effect: Option<PriceEffect>,
    pub legs: Option<Vec<OrderLeg>>,
}

impl OrderBuilder {
    /// The first unset field, by name, in the order of the fields.
    pub open spec fn missing(self) -> Option<&'static str> {
        if self.time_in_force is None {
            Some("time_in_force")
        } else if self.order_type is None {
            Some("order_type")
        } else if self.price is None {
            Some("price")
        } else if self.price_effect is None {
            Some("price_effect")
        } else if self.legs is None {
            Some("legs")
        } else {
            None
        }
    }

    /// A builder with every field unset.
    pub fn new() -> (b: OrderBuilder)
        ensures
            b == (OrderBuilder { time_in_force: None, order_type: None, price: None, price_effect: None, legs: None }),
    {
        OrderBuilder { time_in_force: None, order_type: None, price: None, price_effect: None, legs: None }
    }

    /// Sets the time in force.
    pub fn time_in_force(self, value: TimeInForce) -> (b: OrderBuilder)
        ensures
            b == (OrderBuilder { time_in_force: Some(value), ..self }),
    {
        OrderBuilder { time_in_force: Some(value), ..self }
    }

    /// Sets the order type.
    pub fn order_type(self, value: OrderType) -> (b: OrderBuilder)
        ensures
            b == (OrderBuilder { order_type: Some(value), ..self }),
    {
        OrderBuilder { order_type: Some(value), ..self }
    }

    /// Sets the price.
    pub fn price(self, value: Amount) -> (b: OrderBuilder)
        ensures
            b == (OrderBuilder { price: Some(value), ..self }),
    {
        OrderBuilder { price: Some(value), ..self }
    }

    /// Sets the price effect.
    pub fn price_effect(self, value: PriceEffect) -> (b: OrderBuilder)
        ensures
            b == (OrderBuilder { price_effect: Some(value), ..self }),
    {
        OrderBuilder { price_effect: Some(value), ..self }
    }

    /// Sets the legs.
    pub fn legs(self, value: Vec<OrderLeg>) -> (b: OrderBuilder)
        ensures
            b == (OrderBuilder { legs: Some(value), ..self }),
    {
        OrderBuilder { legs: Some(value), ..self }
    }

    /// Finishes the order: the order of the five fields where all are set,
    /// else `MissingField` with the name of the first unset one.
    pub fn build(self) -> (r: Result<Order, Error>)
        ensures
            match self.missing() {
                Some(name) => r == Err::<Order, Error>(Error::MissingField(name)),
                None => r == Ok::<Order, Error>(
                    (Order {
                        time_in_force: self.time_in_force->Some_0,
                        order_type: self.order_type->Some_0,
                        price: self.price->Some_0,
                        price_effect: self.price_effect->Some_0,
                        legs: self.legs->Some_0,
                    }),
                ),
            },
    {
        let time_in_force = match self.time_in_force {
            Some(v) => v,
            None => return Err(Error::MissingField("time_in_force")),
        };
        let order_type = match self.order_type {
            Some(v) => v,
            None => return Err(Error::MissingField("order_type")),
        };
        let price = match self.price {
            Some(v) => v,
            None => return Err(Error::MissingField("price")),
        };
        let price_effect = match self.price_effect {
            Some(v) => v,
            None => return Err(Error::MissingField("price_effect")),
        };
        let legs = match self.legs {
            Some(v) => v,
            None => return Err(Error::MissingField("legs")),
        };
        Ok(Order { time_in_force, order_type, price, price_effect, legs })
    }
}

/// Collects the fields of an `OrderLeg`; any of them may still be unset.
#[derive(Debug, Clone, PartialEq, Eq)]
pub struct OrderLegBuilder {
    pub instrument_type: Option<InstrumentType>,
    pub symbol: Option<Symbol>,
    pub quantity: Option<Amount>,
    pub action: Option<Action>,
}

impl OrderLegBuilder {
    /// The first unset field, by name, in the order of the fields.
    pub open spec fn missing(self) -> Option<&'static str> {
        if self.instrument_type is None {
            Some("instrument_type")
        } else if self.symbol is None {
            Some("symbol")
        } else if self.quantity is None {
            Some("quantity")
        } else if self.action is None {
            Some("action")
        } else {
            None
        }
    }

    /// A builder with every field unset.
    pub fn new() -> (b: OrderLegBuilder)
        ensures
            b == (OrderLegBuilder { instrument_type: None, symbol: None, quantity: None, action: None }),
    {
        OrderLegBuilder { instrument_type: None, symbol: None, quantity: None, action: None }
    }

    /// Sets the instrument type.
    pub fn instrument_type(self, value: InstrumentType) -> (b: OrderLegBuilder)
        ensures
            b == (OrderLegBuilder { instrument_type: Some(value), ..self }),
    {
        OrderLegBuilder { instrument_type: Some(value), ..self }
    }

    /// Sets the symbol.
    pub fn symbol(self, value: Symbol) -> (b: OrderLegBuilder)
        ensures
            b == (OrderLegBuilder { symbol: Some(value), ..self }),
    {
        OrderLegBuilder { symbol: Some(value), ..self }
    }

    /// Sets the quantity.
    pub fn quantity(self, value: Amount) -> (b: OrderLegBuilder)
        ensures
            b == (OrderLegBuilder { quantity: Some(value), ..self }),
    {
        OrderLegBuilder { quantity: Some(value), ..self }
    }

    /// Sets the action.
    pub fn action(self, value: Action) -> (b: OrderLegBuilder)
        ensures
            b == (OrderLegBuilder { action: Some(value), ..self }),
    {
        OrderLegBuilder { action: Some(value), ..self }
    }

    /// Finishes the leg: the leg of the four fields where all are set, else
    /// `MissingField` with the name of the first unset one.
    pub fn build(self) -> (r: Result<OrderLeg, Error>)
        ensures
            match self.missing() {
                Some(name) => r == Err::<OrderLeg, Error>(Error::MissingField(name)),
                None => r == Ok::<OrderLeg, Error>(
                    (OrderLeg {
                        instrument_type: self.instrument_type->Some_0,
                        symbol: self.symbol->Some_0,
                        quantity: self.quantity->Some_0,
                        action: self.action->Some_0,
                    }),
                ),
            },
    {
        let instrument_type = match self.instrument_type {
            Some(v) => v,
            None => return Err(Error::MissingField("instrument_type")),
        };
        let symbol = match self.symbol {
            Some(v) => v,
            None => return Err(Error::MissingField("symbol")),
        };
        let quantity = match self.quantity {
            Some(v) => v,
            None => return Err(Error::MissingField("quantity")),
        };
        let action = match self.action {
            Some(v) => v,
            None => return Err(Error::MissingField("action")),
        };
        Ok(OrderLeg { instrument_type, symbol, quantity, action })
    }
}

} // verus!
