//! An on-chain market for named identifiers ("tweets"), paid for with a
//! fungible token. Each identifier can be bought once at a fixed initial
//! price and then resold; every resale pays the previous owner a surcharge,
//! routes a fee to a protocol treasury (or destroys it, by policy), and
//! raises the asking price along a deterministic bonding curve.

pub mod accounts;
pub mod error;
pub mod laws;
pub mod market;
pub mod pricing;
pub mod registry;

pub use accounts::Config;
pub use accounts::FeeSink;
pub use accounts::Pubkey;
pub use accounts::TokenAccount;
pub use error::BonkError;
pub use registry::Registry;
pub use registry::Tweet;

use vstd::prelude::*;

verus! {

/// Initial price of a never-owned identifier, in whole tokens.
pub const INITIAL_PRICE: u64 = 10_000;

/// Smallest units per whole token (the token keeps five decimal places).
pub const TOKEN_UNIT: u64 = 100_000;

/// Initial price in smallest token units.
pub const INITIAL_PRICE_UNITS: u64 = INITIAL_PRICE * TOKEN_UNIT;

/// On resale the previous owner is paid `price + price / SURCHARGE_DIVISOR`.
pub const SURCHARGE_DIVISOR: u64 = 10;

/// On resale the fee leg moves or destroys `price / FEE_DIVISOR`.
pub const FEE_DIVISOR: u64 = 10;

/// After a resale the stored price becomes `price + price / GROWTH_DIVISOR`.
pub const GROWTH_DIVISOR: u64 = 5;

} // verus!
