//! Plain-value models of the principals, token accounts and configuration
//! that the surrounding ledger hands to the core. A principal is a 32-byte
//! address, held here as four 64-bit words so that the core can compare
//! identities exactly; a token account is reduced to the three facts the
//! core reads: who owns it, which token it holds, and its balance.

use vstd::prelude::*;

verus! {

/// A 32-byte ledger address, split into four 64-bit words.
#[derive(Clone, Copy, Debug, PartialEq, Eq, Hash, Structural)]
pub struct Pubkey {
    pub w0: u64,
    pub w1: u64,
    pub w2: u64,
    pub w3: u64,
}

/// A token-holding account of the payment token, reduced to what the core
/// reads of it.
#[derive(Clone, Copy, Debug, PartialEq, Eq, Structural)]
pub struct TokenAccount {
    /// The principal that may spend from this account.
    pub owner: Pubkey,
    /// The token this account holds, named by its mint address.
    pub mint: Pubkey,
    /// Balance in smallest token units.
    pub balance: u64,
}

/// Where the fee leg of a payment goes: moved to the treasury account, or
/// destroyed from the buyer's holdings. A deployment-time policy choice.
#[derive(Clone, Copy, Debug, PartialEq, Eq, Structural)]
pub enum FeeSink {
    Transfer,
    Destroy,
}

/// Process-wide configuration, loaded once at startup and never mutated:
/// the single authorized payment-token identity, the administrative
/// principal that may drain the treasury, and the fee-destination policy.
#[derive(Clone, Copy, Debug, PartialEq, Eq, Structural)]
pub struct Config {
    pub bonk_mint: Pubkey,
    pub authority: Pubkey,
    pub fee_sink: FeeSink,
}

} // verus!
