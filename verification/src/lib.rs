//! Typed data model and response handling for a brokerage trading REST API.
//!
//! The crate holds the broker's enumerated vocabularies with their exact wire
//! strings, exact decimal amounts, the order records, the success/error
//! response envelope and the request plans of a session client.
//!
//! Everything here is proved against its contract, with three things taken
//! on trust, each behind a function whose doc comment names it:
//! `rust_decimal` reads and writes decimal text, `serde_json` reads and
//! writes JSON text, and std compares two string slices.

pub mod error;
pub mod text;
pub mod wire;
pub mod decimal;
pub mod json;
pub mod count;
pub mod decode;
pub mod symbol;
pub mod order;
pub mod envelope;
pub mod client;
