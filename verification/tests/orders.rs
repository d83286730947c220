use tastytrade::decimal::Amount;
use tastytrade::decode::{field, Decode};
use tastytrade::error::{DecodeError, Error};
use tastytrade::json::Json;
use tastytrade::order::{
    DryRunResult, FullOrder, Order, OrderBuilder, OrderLeg, OrderLegBuilder, OrderPlacedResult, Warning,
};
use tastytrade::symbol::{AccountNumber, AsSymbol, OrderId, Symbol};
use tastytrade::wire::{Action, InstrumentType, OrderStatus, OrderType, PriceEffect, TimeInForce};

const PLACED: &str = r#"{"order":{"id":129359,"account-number":"5WU44237","time-in-force":"Day","order-type":"Limit","size":100,"underlying-symbol":"AAPL","underlying-instrument-type":"Equity","price":"181.01","price-effect":"Debit","status":"Received","cancellable":true,"editable":true,"edited":false,"received-at":"2024-02-11T21:59:57.143+00:00","updated-at":1234,"global-request-id":"153cc8811e19d5aba6c9bfa083251e56","legs":[{"instrument-type":"Equity","symbol":"AAPL","quantity":100,"remaining-quantity":100,"action":"Buy to Open","fills":[]}]},"warnings":[{"code":"tif_next_valid_sesssion","message":"Your order will begin working during next valid session."}],"buying-power-effect":{"change-in-margin-requirement":"9050.5","change-in-margin-requirement-effect":"Debit","change-in-buying-power":"9050.58","change-in-buying-power-effect":"Debit","current-buying-power":"10056.31","current-buying-power-effect":"Credit","new-buying-power":"1005.73","new-buying-power-effect":"Credit","isolated-order-margin-requirement":"9050.5","isolated-order-margin-requirement-effect":"Debit","is-spread":false,"impact":"9050.58","effect":"Debit"},"fee-calculation":{"regulatory-fees":"0.0","regulatory-fees-effect":"None","clearing-fees":"0.08","clearing-fees-effect":"Debit","commission":"0.0","commission-effect":"None","proprietary-index-option-fees":"0.0","proprietary-index-option-fees-effect":"None","total-fees":"0.08","total-fees-effect":"Debit"}}"#;

fn amount(mantissa: i128, scale: u32) -> Amount {
    Amount { mantissa, scale }
}

fn leg() -> OrderLeg {
    OrderLeg { instrument_type: InstrumentType::Equity, symbol: Symbol::new("AAPL"), quantity: amount(100, 0), action: Action::BuyToOpen }
}

#[test]
fn test_derp() {
    let json = Json::parse(PLACED).unwrap();
    let res: OrderPlacedResult = OrderPlacedResult::decode(&json).unwrap();
    assert_eq!(res.order.status, OrderStatus::Received);
    assert_eq!(res.warnings.len(), 1);
    assert!(!res.buying_power_effect.is_spread);
}

#[test]
fn placed_order_decodes_every_field() {
    let json = Json::parse(PLACED).unwrap();
    let res = OrderPlacedResult::decode(&json).unwrap();
    let o = &res.order;
    assert_eq!(o.id, amount(129359, 0));
    assert_eq!(o.account_number, AccountNumber("5WU44237".to_string()));
    assert_eq!(o.time_in_force, TimeInForce::Day);
    assert_eq!(o.order_type, OrderType::Limit);
    assert_eq!(o.size, 100);
    assert_eq!(o.underlying_symbol, Symbol::new("AAPL"));
    assert_eq!(o.underlying_instrument_type, InstrumentType::Equity);
    assert_eq!(o.price, amount(18101, 2));
    assert_eq!(o.price_effect, PriceEffect::Debit);
    assert!(o.cancellable && o.editable && !o.edited);
    assert_eq!(o.received_at, "2024-02-11T21:59:57.143+00:00");
    assert_eq!(o.updated_at, 1234);
    assert_eq!(o.global_request_id, "153cc8811e19d5aba6c9bfa083251e56");
    assert_eq!(o.legs.len(), 1);
    assert_eq!(o.legs[0].instrument_type, InstrumentType::Equity);
    assert_eq!(o.legs[0].symbol, Symbol::new("AAPL"));
    assert_eq!(o.legs[0].quantity, amount(100, 0));
    assert_eq!(o.legs[0].remaining_quantity, amount(100, 0));
    assert_eq!(o.legs[0].action, Action::BuyToOpen);
    assert!(o.legs[0].fills.is_empty());
    assert_eq!(
        res.warnings[0],
        Warning {
            code: "tif_next_valid_sesssion".to_string(),
            message: "Your order will begin working during next valid session.".to_string()
        }
    );
    let b = &res.buying_power_effect;
    assert_eq!(b.change_in_margin_requirement, amount(90505, 1));
    assert_eq!(b.change_in_margin_requirement_effect, PriceEffect::Debit);
    assert_eq!(b.change_in_buying_power, amount(905058, 2));
    assert_eq!(b.current_buying_power, amount(1005631, 2));
    assert_eq!(b.current_buying_power_effect, PriceEffect::Credit);
    assert_eq!(b.new_buying_power, amount(100573, 2));
    assert_eq!(b.isolated_order_margin_requirement, amount(90505, 1));
    assert_eq!(b.impact, amount(905058, 2));
    assert_eq!(b.effect, PriceEffect::Debit);
    let f = &res.fee_calculation;
    assert_eq!(f.regulatory_fees, amount(0, 1));
    assert_eq!(f.regulatory_fees_effect, PriceEffect::NoEffect);
    assert_eq!(f.clearing_fees, amount(8, 2));
    assert_eq!(f.clearing_fees_effect, PriceEffect::Debit);
    assert_eq!(f.commission, amount(0, 1));
    assert_eq!(f.proprietary_index_option_fees_effect, PriceEffect::NoEffect);
    assert_eq!(f.total_fees, amount(8, 2));
    assert_eq!(f.total_fees_effect, PriceEffect::Debit);
}

#[test]
fn unknown_status_fails_the_whole_record() {
    let text = PLACED.replace("\"status\":\"Received\"", "\"status\":\"Recieved\"");
    let json = Json::parse(&text).unwrap();
    assert_eq!(
        OrderPlacedResult::decode(&json),
        Err(Error::Decode(DecodeError::UnknownVariant { value: "Recieved".to_string(), enum_name: "OrderStatus", field: Some("status") }))
    );
}

#[test]
fn unknown_variant_names_the_innermost_field() {
    let text = PLACED.replace("\"action\":\"Buy to Open\"", "\"action\":\"Buy\\u0020To Open\"");
    let json = Json::parse(&text).unwrap();
    assert_eq!(
        OrderPlacedResult::decode(&json),
        Err(Error::Decode(DecodeError::UnknownVariant {
            value: "Buy To Open".to_string(),
            enum_name: "Action",
            field: Some("action")
        }))
    );
    let text = PLACED.replace("\"effect\":\"Debit\"", "\"effect\":\"None \"");
    let json = Json::parse(&text).unwrap();
    assert_eq!(
        OrderPlacedResult::decode(&json),
        Err(Error::Decode(DecodeError::UnknownVariant {
            value: "None ".to_string(),
            enum_name: "PriceEffect",
            field: Some("effect")
        }))
    );
}

#[test]
fn first_failing_field_names_the_error() {
    let json = Json::parse(r#"{"message":"m"}"#).unwrap();
    assert_eq!(Warning::decode(&json), Err(Error::Decode(DecodeError::Field { key: "code" })));
    let json = Json::parse(r#"{"code":"c","message":7}"#).unwrap();
    assert_eq!(Warning::decode(&json), Err(Error::Decode(DecodeError::Field { key: "message" })));
    let json = Json::parse(r#"{"code":1,"message":7}"#).unwrap();
    assert_eq!(Warning::decode(&json), Err(Error::Decode(DecodeError::Field { key: "code" })));
    assert_eq!(Warning::decode(&Json::Null), Err(Error::Decode(DecodeError::Field { key: "code" })));
    let text = PLACED.replace("\"price\":\"181.01\"", "\"price\":\"181.0x\"");
    let json = Json::parse(&text).unwrap();
    assert_eq!(OrderPlacedResult::decode(&json), Err(Error::Decode(DecodeError::Field { key: "price" })));
}

#[test]
fn failing_item_of_a_list_fails_the_list() {
    let json = Json::parse(r#"{"w":[{"code":"a","message":"b"},{"code":"c"}]}"#).unwrap();
    assert_eq!(field::<Vec<Warning>>(&json, "w"), Err(Error::Decode(DecodeError::Field { key: "message" })));
    let json = Json::parse(r#"{"w":[{"code":"a","message":"b"},{"code":"c","message":"d"}]}"#).unwrap();
    let got = field::<Vec<Warning>>(&json, "w").unwrap();
    assert_eq!(got.len(), 2);
    assert_eq!(got[1].code, "c");
    let json = Json::parse(r#"{"w":{}}"#).unwrap();
    assert_eq!(field::<Vec<Warning>>(&json, "w"), Err(Error::Decode(DecodeError::Field { key: "w" })));
}

#[test]
fn dry_run_and_full_order_decode() {
    let text = r#"{"order":{"account-number":"5WU44237","time-in-force":"GTC Ext","order-type":"Stop Limit","size":2,"underlying-symbol":"SPY","price":"1.50","price-effect":"Credit","status":"In Flight","cancellable":false,"editable":false,"edited":true,"legs":[{"instrument-type":"Equity Option","symbol":"SPY   240315C00500000","quantity":2,"action":"Sell to Open"}]},"warnings":[],"buying-power-effect":{"change-in-margin-requirement":"9050.5","change-in-margin-requirement-effect":"Debit","change-in-buying-power":"9050.58","change-in-buying-power-effect":"Debit","current-buying-power":"10056.31","current-buying-power-effect":"Credit","new-buying-power":"1005.73","new-buying-power-effect":"Credit","isolated-order-margin-requirement":"9050.5","isolated-order-margin-requirement-effect":"Debit","is-spread":true,"impact":"9050.58","effect":"Debit"},"fee-calculation":{"regulatory-fees":"0.0","regulatory-fees-effect":"None","clearing-fees":"0.08","clearing-fees-effect":"Debit","commission":"0.0","commission-effect":"None","proprietary-index-option-fees":"0.0","proprietary-index-option-fees-effect":"None","total-fees":"0.08","total-fees-effect":"Debit"}}"#;
    let res = DryRunResult::decode(&Json::parse(text).unwrap()).unwrap();
    assert_eq!(res.order.time_in_force, TimeInForce::GTCExt);
    assert_eq!(res.order.order_type, OrderType::StopLimit);
    assert_eq!(res.order.status, OrderStatus::InFlight);
    assert_eq!(res.order.price, amount(150, 2));
    assert_eq!(res.order.legs[0].action, Action::SellToOpen);
    assert_eq!(res.order.legs[0].instrument_type, InstrumentType::EquityOption);
    assert!(res.warnings.is_empty());
    assert!(res.buying_power_effect.is_spread);
    let full = r#"{"id":"77","account-number":"5WU44237","time-in-force":"Day","order-type":"Market","size":"1.5","underlying-symbol":"BTC/USD","price":"0","price-effect":"None","status":"Filled","cancellable":false,"editable":false,"edited":false,"legs":[]}"#;
    let order = FullOrder::decode(&Json::parse(full).unwrap()).unwrap();
    assert_eq!(order.id, OrderId("77".to_string()));
    assert_eq!(order.size, amount(15, 1));
    assert_eq!(order.price_effect, PriceEffect::NoEffect);
    assert!(order.legs.is_empty());
}

#[test]
fn building_without_price_names_price() {
    let r = OrderBuilder::new()
        .time_in_force(TimeInForce::Day)
        .order_type(OrderType::Limit)
        .price_effect(PriceEffect::Debit)
        .legs(vec![leg()])
        .build();
    assert_eq!(r, Err(Error::MissingField("price")));
}

#[test]
fn builder_reports_the_first_unset_field() {
    assert_eq!(OrderBuilder::new().build(), Err(Error::MissingField("time_in_force")));
    assert_eq!(OrderBuilder::new().time_in_force(TimeInForce::Day).build(), Err(Error::MissingField("order_type")));
    let b = OrderBuilder::new().time_in_force(TimeInForce::Day).order_type(OrderType::Limit).price(amount(18101, 2));
    assert_eq!(b.clone().build(), Err(Error::MissingField("price_effect")));
    assert_eq!(b.price_effect(PriceEffect::Debit).build(), Err(Error::MissingField("legs")));
    assert_eq!(OrderLegBuilder::new().build(), Err(Error::MissingField("instrument_type")));
    assert_eq!(
        OrderLegBuilder::new().instrument_type(InstrumentType::Equity).symbol(Symbol::new("AAPL")).action(Action::Buy).build(),
        Err(Error::MissingField("quantity"))
    );
}

#[test]
fn built_order_holds_what_was_set() {
    let built_leg = OrderLegBuilder::new()
        .instrument_type(InstrumentType::Equity)
        .symbol("AAPL".as_symbol())
        .quantity(amount(100, 0))
        .action(Action::BuyToOpen)
        .build()
        .unwrap();
    assert_eq!(built_leg, leg());
    let order = OrderBuilder::new()
        .time_in_force(TimeInForce::Day)
        .order_type(OrderType::Limit)
        .price(amount(18101, 2))
        .price_effect(PriceEffect::Debit)
        .legs(vec![built_leg])
        .build()
        .unwrap();
    assert_eq!(
        order,
        Order {
            time_in_force: TimeInForce::Day,
            order_type: OrderType::Limit,
            price: amount(18101, 2),
            price_effect: PriceEffect::Debit,
            legs: vec![leg()]
        }
    );
    assert!(order.is_well_formed());
}

#[test]
fn order_wire_form() {
    let order = Order {
        time_in_force: TimeInForce::GTCExt,
        order_type: OrderType::Limit,
        price: amount(905050, 2),
        price_effect: PriceEffect::Debit,
        legs: vec![leg()],
    };
    let j = order.to_json();
    assert_eq!(j.get("time-in-force"), Some(&Json::Text("GTC Ext".to_string())));
    assert_eq!(j.get("order-type"), Some(&Json::Text("Limit".to_string())));
    assert_eq!(j.get("price"), Some(&Json::Text("9050.50".to_string())));
    assert_eq!(j.get("price-effect"), Some(&Json::Text("Debit".to_string())));
    let legs = j.get("legs").unwrap();
    assert_eq!(
        legs,
        &Json::Array(vec![Json::Object(vec![
            ("instrument-type".to_string(), Json::Text("Equity".to_string())),
            ("symbol".to_string(), Json::Text("AAPL".to_string())),
            ("quantity".to_string(), Json::Number("100".to_string())),
            ("action".to_string(), Json::Text("Buy to Open".to_string())),
        ])])
    );
    let back = Json::parse(&j.to_text()).unwrap();
    assert_eq!(back.get("price"), Some(&Json::Text("9050.50".to_string())));
    assert_eq!(Vec::<OrderLeg>::decode(back.get("legs").unwrap()), Ok(vec![leg()]));
}

#[test]
fn order_that_cannot_be_written_is_told_apart() {
    let order = Order {
        time_in_force: TimeInForce::Day,
        order_type: OrderType::Market,
        price: amount(1, 0),
        price_effect: PriceEffect::Debit,
        legs: vec![OrderLeg { quantity: Amount { mantissa: 1, scale: 40 }, ..leg() }],
    };
    assert!(!order.is_well_formed());
}

#[test]
fn symbols_order_by_text() {
    assert!(Symbol::new("AAPL") < Symbol::new("MSFT"));
    assert_eq!(Symbol::from("AAPL".to_string()), Symbol::new("AAPL"));
    assert_eq!("AAPL".as_symbol(), Symbol::new("AAPL"));
    assert_eq!("AAPL".to_string().as_symbol(), Symbol::new("AAPL"));
    assert_eq!(Symbol::new("AAPL").as_symbol(), Symbol::new("AAPL"));
    assert_eq!(Symbol::new("SPY").to_json(), Json::Text("SPY".to_string()));
}
