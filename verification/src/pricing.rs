//! The pricing engine: a pure function that, given the current record state
//! and the buyer, computes the required payment split, the next stored
//! price and the next owner. All divisions truncate toward zero; the lost
//! fractions are by design and are never compensated. Any step that would
//! leave the 64-bit range rejects the request with `Overflow`.

use crate::accounts::Pubkey;
use crate::error::BonkError;
use crate::FEE_DIVISOR;
use crate::GROWTH_DIVISOR;
use crate::INITIAL_PRICE_UNITS;
use crate::SURCHARGE_DIVISOR;
use vstd::prelude::*;

verus! {

/// What the previous owner is owed on a resale at price `p`.
pub open spec fn spec_seller_payment(p: u64) -> int {
    p + p as int / (SURCHARGE_DIVISOR as int)
}

/// What the fee leg moves or destroys on a resale at price `p`.
pub open spec fn spec_fee(p: u64) -> int {
    p as int / (FEE_DIVISOR as int)
}

/// The stored price after a resale at price `p`.
pub open spec fn spec_grown_price(p: u64) -> int {
    p + p as int / (GROWTH_DIVISOR as int)
}

/// The payment split and next price of a resale.
#[derive(Clone, Copy, Debug, PartialEq, Eq, Structural)]
pub struct ResaleQuote {
    /// The recorded owner, who is paid the surcharged price.
    pub previous_owner: Pubkey,
    /// What the buyer pays the previous owner.
    pub seller_payment: u64,
    /// What the fee leg moves to the treasury or destroys.
    pub fee: u64,
    /// The price stored after the sale.
    pub new_price: u64,
}

/// What a purchase request must pay and record: a fixed price routed
/// entirely to the fee leg on a first sale, a split payment on a resale.
#[derive(Clone, Copy, Debug, PartialEq, Eq, Structural)]
pub enum Quote {
    FirstSale { price: u64 },
    Resale(ResaleQuote),
}

/// The resale quote owed to `buyer` against a record owned by `owner` at
/// price `p`: rejected when the buyer already owns the record or when a
/// step would overflow, exact otherwise.
pub open spec fn spec_resale_quote(owner: Pubkey, p: u64, buyer: Pubkey) -> Result<
    ResaleQuote,
    BonkError,
> {
    if buyer == owner {
        Err(BonkError::AlreadyOwner)
    } else if spec_seller_payment(p) > u64::MAX || spec_grown_price(p) > u64::MAX {
        Err(BonkError::Overflow)
    } else {
        Ok(
            ResaleQuote {
                previous_owner: owner,
                seller_payment: spec_seller_payment(p) as u64,
                fee: spec_fee(p) as u64,
                new_price: spec_grown_price(p) as u64,
            },
        )
    }
}

/// The quote owed to `buyer` for a record in state (`owner`, `price`).
pub open spec fn spec_quote(owner: Option<Pubkey>, price: Option<u64>, buyer: Pubkey) -> Result<
    Quote,
    BonkError,
> {
    match (owner, price) {
        (Some(o), Some(p)) => match spec_resale_quote(o, p, buyer) {
            Ok(q) => Ok(Quote::Resale(q)),
            Err(e) => Err(e),
        },
        _ => Ok(Quote::FirstSale { price: INITIAL_PRICE_UNITS }),
    }
}

/// Computes the resale quote owed to `buyer` against a record owned by
/// `owner` at price `p`.
pub fn resale_quote(owner: Pubkey, p: u64, buyer: Pubkey) -> (r: Result<ResaleQuote, BonkError>)
    ensures
        r == spec_resale_quote(owner, p, buyer),
{
    if buyer == owner {
        return Err(BonkError::AlreadyOwner);
    }
    let surcharge: u64 = p / SURCHARGE_DIVISOR;
    let growth: u64 = p / GROWTH_DIVISOR;
    if p > u64::MAX - surcharge || p > u64::MAX - growth {
        return Err(BonkError::Overflow);
    }
    Ok(
        ResaleQuote {
            previous_owner: owner,
            seller_payment: p + surcharge,
            fee: p / FEE_DIVISOR,
            new_price: p + growth,
        },
    )
}

/// Computes the quote owed to `buyer` for a record in state (`owner`,
/// `price`): the fixed initial price on a first sale, the split resale
/// payment otherwise.
pub fn compute_quote(owner: Option<Pubkey>, price: Option<u64>, buyer: Pubkey) -> (r: Result<
    Quote,
    BonkError,
>)
    requires
        owner is Some <==> price is Some,
    ensures
        r == spec_quote(owner, price, buyer),
{
    match (owner, price) {
        (Some(o), Some(p)) => match resale_quote(o, p, buyer) {
            Ok(q) => Ok(Quote::Resale(q)),
            Err(e) => Err(e),
        },
        _ => Ok(Quote::FirstSale { price: INITIAL_PRICE_UNITS }),
    }
}

} // verus!
