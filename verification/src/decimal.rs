//! Exact decimal amounts.
//!
//! An amount is held as the digits the wire gave: a signed integer mantissa
//! and the number of digits after the decimal point. Nothing is ever rounded:
//! `9050.50` is the mantissa 905050 at scale 2, and is written back as
//! `9050.50`. Reading and writing the decimal text is `rust_decimal`'s work.

use vstd::prelude::*;
use crate::json::Json;

verus! {

/// A decimal number: `mantissa / 10^scale`.
#[derive(Debug, Clone, Copy, PartialEq, Eq, Structural)]
pub struct Amount {
    pub mantissa: i128,
    pub scale: u32,
}

/// How a decimal field is written on the wire.
#[derive(Debug, Clone, Copy, PartialEq, Eq, Structural)]
pub enum Policy {
    /// As a JSON string that keeps the amount's scale.
    ArbitraryPrecision,
    /// As a JSON number literal.
    Float,
}

/// What `rust_decimal`'s exact plain parser makes of a text: the amount it
/// reads, or `None` where it rejects the text.
pub uninterp spec fn plain_decimal(text: Seq<char>) -> Option<Amount>;

/// What `rust_decimal`'s scientific-notation parser makes of a text.
pub uninterp spec fn scientific_decimal(text: Seq<char>) -> Option<Amount>;

/// The text that `rust_decimal` writes for an amount.
pub uninterp spec fn decimal_text(a: Amount) -> Seq<char>;

impl Amount {
    /// The amounts a decimal can hold: at most 28 digits after the point and
    /// a mantissa of at most 96 bits.
    pub open spec fn well_formed(self) -> bool {
        &&& self.scale <= 28
        &&& -79228162514264337593543950336 < self.mantissa < 79228162514264337593543950336
    }

    /// The amount that a wire text stands for: what the plain parser reads,
    /// and where it rejects the text, what the scientific parser reads.
    pub open spec fn of_text(text: Seq<char>) -> Option<Amount> {
        if plain_decimal(text) is Some {
            plain_decimal(text)
        } else {
            scientific_decimal(text)
        }
    }

    /// Whether this value is an amount a decimal can hold.
    pub fn is_well_formed(&self) -> (r: bool)
        ensures
            r == self.well_formed(),
    {
        self.scale <= 28 && -79228162514264337593543950336 < self.mantissa && self.mantissa
            < 79228162514264337593543950336
    }

    /// Decodes a wire text, plain notation first and scientific notation
    /// second; `None` where the text is no decimal.
    pub fn parse(text: &str) -> (r: Option<Amount>)
        ensures
            r == Amount::of_text(text@),
            r matches Some(a) ==> a.well_formed(),
    {
        match read_plain(text) {
            Some(a) => Some(a),
            None => read_scientific(text),
        }
    }

    /// Encodes the amount as decimal text, every digit of its scale kept.
    pub fn to_text(&self) -> (s: String)
        requires
            self.well_formed(),
        ensures
            s@ == decimal_text(*self),
    {
        write_decimal(*self)
    }

    /// Whether `j` is the wire form of the amount under `policy`: a string
    /// or a number that holds the amount's decimal text.
    pub open spec fn encoded_as(self, policy: Policy, j: Json) -> bool {
        match policy {
            Policy::ArbitraryPrecision => j matches Json::Text(s) && s@ == decimal_text(self),
            Policy::Float => j matches Json::Number(n) && n@ == decimal_text(self),
        }
    }

    /// Encodes the amount under the field's policy.
    pub fn encode(&self, policy: Policy) -> (j: Json)
        requires
            self.well_formed(),
        ensures
            self.encoded_as(policy, j),
    {
        match policy {
            Policy::ArbitraryPrecision => Json::Text(self.to_text()),
            Policy::Float => Json::Number(self.to_text()),
        }
    }
}

/// `rust_decimal::Decimal::from_str_exact`, the parser that rejects a text
/// it could only hold by rounding, with the decimal handed back as its
/// mantissa and scale. The result is the parser's, and a decimal it accepts
/// has a scale of at most 28 and a mantissa of at most 96 bits.
#[verifier::external_body]
fn read_plain(text: &str) -> (r: Option<Amount>)
    ensures
        r == plain_decimal(text@),
        r matches Some(a) ==> a.well_formed(),
{
    match rust_decimal::Decimal::from_str_exact(text) {
        Ok(d) => Some(Amount { mantissa: d.mantissa(), scale: d.scale() }),
        Err(_) => None,
    }
}

/// `rust_decimal::Decimal::from_scientific`, with the decimal handed back as
/// its mantissa and scale, within the same bounds.
#[verifier::external_body]
fn read_scientific(text: &str) -> (r: Option<Amount>)
    ensures
        r == scientific_decimal(text@),
        r matches Some(a) ==> a.well_formed(),
{
    match rust_decimal::Decimal::from_scientific(text) {
        Ok(d) => Some(Amount { mantissa: d.mantissa(), scale: d.scale() }),
        Err(_) => None,
    }
}

/// `rust_decimal::Decimal::from_i128_with_scale` and the decimal's
/// `to_string`: the text of the decimal with this mantissa and scale. The
/// constructor panics outside the bounds that `well_formed` states, so they
/// are required.
#[verifier::external_body]
fn write_decimal(a: Amount) -> (s: String)
    requires
        a.well_formed(),
    ensures
        s@ == decimal_text(a),
{
    rust_decimal::Decimal::from_i128_with_scale(a.mantissa, a.scale).to_string()
}

} // verus!
