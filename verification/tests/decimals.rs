use tastytrade::decimal::{Amount, Policy};
use tastytrade::count::parse_count;
use tastytrade::decode::Decode;
use tastytrade::error::{DecodeError, Error};
use tastytrade::json::Json;

#[test]
fn trailing_zero_is_preserved() {
    let a = Amount::parse("9050.50").unwrap();
    assert_eq!(a, Amount { mantissa: 905050, scale: 2 });
    assert!(a.is_well_formed());
    assert_eq!(a.to_text(), "9050.50");
    assert_ne!(a.to_text(), "9050.5");
}

#[test]
fn plain_amounts_keep_their_scale() {
    assert_eq!(Amount::parse("181.01"), Some(Amount { mantissa: 18101, scale: 2 }));
    assert_eq!(Amount::parse("0.0"), Some(Amount { mantissa: 0, scale: 1 }));
    assert_eq!(Amount::parse("100"), Some(Amount { mantissa: 100, scale: 0 }));
    assert_eq!(Amount::parse("-12.5"), Some(Amount { mantissa: -125, scale: 1 }));
    assert_eq!(Amount { mantissa: -125, scale: 1 }.to_text(), "-12.5");
    assert_eq!(Amount { mantissa: 0, scale: 1 }.to_text(), "0.0");
}

#[test]
fn scientific_notation_is_the_fallback() {
    let a = Amount::parse("5.06e-6").unwrap();
    assert_eq!(a, Amount { mantissa: 506, scale: 8 });
    assert_eq!(a.to_text(), "0.00000506");
}

#[test]
fn digits_that_do_not_fit_are_rejected_not_rounded() {
    assert_eq!(Amount::parse("0.00000000000000000000000000001"), None);
    assert_eq!(
        Amount::parse("0.0000000000000000000000000001"),
        Some(Amount { mantissa: 1, scale: 28 })
    );
    assert_eq!(Amount::parse("79228162514264337593543950336"), None);
}

#[test]
fn negative_amounts_have_negative_mantissas() {
    let a = Amount::parse("-0.25").unwrap();
    assert_eq!(a, Amount { mantissa: -25, scale: 2 });
    assert_eq!(a.to_text(), "-0.25");
}

#[test]
fn text_that_is_no_decimal_is_rejected() {
    assert_eq!(Amount::parse("12a"), None);
    assert_eq!(Amount::parse(""), None);
    assert_eq!(Amount::parse("abc"), None);
    assert_eq!(Amount::decode(&Json::Text("12a".to_string())), Err(Error::Decode(DecodeError::Mismatch)));
    assert_eq!(Amount::decode(&Json::Bool(true)), Err(Error::Decode(DecodeError::Mismatch)));
}

#[test]
fn amounts_decode_from_strings_and_numbers() {
    let want = Amount { mantissa: 905058, scale: 2 };
    assert_eq!(Amount::decode(&Json::Text("9050.58".to_string())), Ok(want));
    assert_eq!(Amount::decode(&Json::Number("9050.58".to_string())), Ok(want));
}

#[test]
fn policy_selects_string_or_number() {
    let a = Amount { mantissa: 905050, scale: 2 };
    assert_eq!(a.encode(Policy::ArbitraryPrecision), Json::Text("9050.50".to_string()));
    assert_eq!(a.encode(Policy::Float), Json::Number("9050.50".to_string()));
    assert_eq!(a.encode(Policy::ArbitraryPrecision).to_text(), "\"9050.50\"");
    assert_eq!(a.encode(Policy::Float).to_text(), "9050.50");
}

#[test]
fn well_formedness_bounds() {
    assert!(Amount { mantissa: 79228162514264337593543950335, scale: 28 }.is_well_formed());
    assert!(!Amount { mantissa: 79228162514264337593543950336, scale: 0 }.is_well_formed());
    assert!(!Amount { mantissa: 1, scale: 29 }.is_well_formed());
    assert!(Amount { mantissa: -79228162514264337593543950335, scale: 0 }.is_well_formed());
    assert!(!Amount { mantissa: -79228162514264337593543950336, scale: 0 }.is_well_formed());
    assert_eq!(Amount { mantissa: -79228162514264337593543950335, scale: 0 }.to_text(), "-79228162514264337593543950335");
    assert_eq!(Amount { mantissa: 79228162514264337593543950335, scale: 28 }.to_text(), "7.9228162514264337593543950335");
}

#[test]
fn counts_are_read_digit_by_digit() {
    assert_eq!(parse_count("0"), Some(0));
    assert_eq!(parse_count("007"), Some(7));
    assert_eq!(parse_count("1234"), Some(1234));
    assert_eq!(parse_count("18446744073709551615"), Some(u64::MAX));
    assert_eq!(parse_count("18446744073709551616"), None);
    assert_eq!(parse_count("99999999999999999999999"), None);
    assert_eq!(parse_count(""), None);
    assert_eq!(parse_count("+5"), None);
    assert_eq!(parse_count("-5"), None);
    assert_eq!(parse_count("12a"), None);
    assert_eq!(parse_count("1e2"), None);
    assert_eq!(parse_count("\u{663}"), None);
}

#[test]
fn counts_decode_from_integer_numbers() {
    assert_eq!(u64::decode(&Json::Number("1234".to_string())), Ok(1234));
    assert_eq!(u64::decode(&Json::Number("1.5".to_string())), Err(Error::Decode(DecodeError::Mismatch)));
    assert_eq!(u64::decode(&Json::Number("-1".to_string())), Err(Error::Decode(DecodeError::Mismatch)));
    assert_eq!(u64::decode(&Json::Text("1234".to_string())), Err(Error::Decode(DecodeError::Mismatch)));
}
