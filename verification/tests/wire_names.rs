use tastytrade::decode::Decode;
use tastytrade::error::{DecodeError, Error};
use tastytrade::json::Json;
use tastytrade::wire::{Action, InstrumentType, OrderStatus, OrderType, PriceEffect, TimeInForce};

#[test]
fn action_wire_strings_are_exact() {
    assert_eq!(Action::BuyToOpen.wire_name(), "Buy to Open");
    assert_eq!(Action::SellToOpen.wire_name(), "Sell to Open");
    assert_eq!(Action::BuyToClose.wire_name(), "Buy to Close");
    assert_eq!(Action::SellToClose.wire_name(), "Sell to Close");
    assert_eq!(Action::Sell.wire_name(), "Sell");
    assert_eq!(Action::Buy.wire_name(), "Buy");
}

#[test]
fn renamed_variants_insert_spaces() {
    assert_eq!(InstrumentType::EquityOption.wire_name(), "Equity Option");
    assert_eq!(InstrumentType::EquityOffering.wire_name(), "Equity Offering");
    assert_eq!(InstrumentType::FutureOption.wire_name(), "Future Option");
    assert_eq!(OrderType::MarketableLimit.wire_name(), "Marketable Limit");
    assert_eq!(OrderType::StopLimit.wire_name(), "Stop Limit");
    assert_eq!(OrderType::NotionalMarket.wire_name(), "Notional Market");
    assert_eq!(TimeInForce::GTCExt.wire_name(), "GTC Ext");
    assert_eq!(OrderStatus::InFlight.wire_name(), "In Flight");
    assert_eq!(OrderStatus::CancelRequested.wire_name(), "Cancel Requested");
    assert_eq!(OrderStatus::ReplaceRequested.wire_name(), "Replace Requested");
    assert_eq!(OrderStatus::PartiallyRemoved.wire_name(), "Partially Removed");
    assert_eq!(PriceEffect::NoEffect.wire_name(), "None");
}

#[test]
fn action_round_trips() {
    let all = [Action::BuyToOpen, Action::SellToOpen, Action::BuyToClose, Action::SellToClose, Action::Sell, Action::Buy];
    for v in all {
        assert_eq!(Action::from_wire(v.wire_name()), Ok(v));
    }
}

#[test]
fn instrument_type_round_trips() {
    let all = [
        InstrumentType::Equity,
        InstrumentType::EquityOption,
        InstrumentType::EquityOffering,
        InstrumentType::Future,
        InstrumentType::FutureOption,
        InstrumentType::Cryptocurrency,
    ];
    for v in all {
        assert_eq!(InstrumentType::from_wire(v.wire_name()), Ok(v));
    }
}

#[test]
fn order_type_round_trips() {
    let all = [
        OrderType::Limit,
        OrderType::Market,
        OrderType::MarketableLimit,
        OrderType::Stop,
        OrderType::StopLimit,
        OrderType::NotionalMarket,
    ];
    for v in all {
        assert_eq!(OrderType::from_wire(v.wire_name()), Ok(v));
    }
}

#[test]
fn time_in_force_round_trips() {
    let all = [TimeInForce::Day, TimeInForce::GTC, TimeInForce::GTD, TimeInForce::Ext, TimeInForce::GTCExt, TimeInForce::IOC];
    for v in all {
        assert_eq!(TimeInForce::from_wire(v.wire_name()), Ok(v));
    }
}

#[test]
fn order_status_round_trips() {
    let all = [
        OrderStatus::Received,
        OrderStatus::Routed,
        OrderStatus::InFlight,
        OrderStatus::Live,
        OrderStatus::CancelRequested,
        OrderStatus::ReplaceRequested,
        OrderStatus::Contingent,
        OrderStatus::Filled,
        OrderStatus::Cancelled,
        OrderStatus::Expired,
        OrderStatus::Rejected,
        OrderStatus::Removed,
        OrderStatus::PartiallyRemoved,
    ];
    assert_eq!(all.len(), 13);
    for v in all {
        assert_eq!(OrderStatus::from_wire(v.wire_name()), Ok(v));
    }
}

#[test]
fn price_effect_round_trips() {
    let all = [PriceEffect::Debit, PriceEffect::Credit, PriceEffect::NoEffect];
    for v in all {
        assert_eq!(PriceEffect::from_wire(v.wire_name()), Ok(v));
    }
}

#[test]
fn unknown_string_is_an_error_with_string_and_enum_name() {
    assert_eq!(
        Action::from_wire("Buy To Open"),
        Err(Error::Decode(DecodeError::UnknownVariant { value: "Buy To Open".to_string(), enum_name: "Action", field: None }))
    );
    assert_eq!(
        PriceEffect::from_wire("debit"),
        Err(Error::Decode(DecodeError::UnknownVariant { value: "debit".to_string(), enum_name: "PriceEffect", field: None }))
    );
    assert_eq!(
        TimeInForce::from_wire("GTCExt"),
        Err(Error::Decode(DecodeError::UnknownVariant { value: "GTCExt".to_string(), enum_name: "TimeInForce", field: None }))
    );
    assert_eq!(
        OrderStatus::from_wire(""),
        Err(Error::Decode(DecodeError::UnknownVariant { value: String::new(), enum_name: "OrderStatus", field: None }))
    );
    assert_eq!(
        OrderType::from_wire("Limit "),
        Err(Error::Decode(DecodeError::UnknownVariant { value: "Limit ".to_string(), enum_name: "OrderType", field: None }))
    );
    assert_eq!(
        InstrumentType::from_wire("EquityOption"),
        Err(Error::Decode(DecodeError::UnknownVariant { value: "EquityOption".to_string(), enum_name: "InstrumentType", field: None }))
    );
}

#[test]
fn enum_decodes_from_json_string_only() {
    assert_eq!(Action::decode(&Json::Text("Sell".to_string())), Ok(Action::Sell));
    assert_eq!(Action::decode(&Json::Null), Err(Error::Decode(DecodeError::Mismatch)));
    assert_eq!(
        Action::decode(&Json::Text("sell".to_string())),
        Err(Error::Decode(DecodeError::UnknownVariant { value: "sell".to_string(), enum_name: "Action", field: None }))
    );
    assert_eq!(OrderStatus::InFlight.to_json(), Json::Text("In Flight".to_string()));
}
