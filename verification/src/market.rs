//! The two market operations. `purchase` fetches or creates the record for
//! an identifier, validates the supplied accounts, asks the pricing engine
//! what is owed, moves the payment legs between the supplied balances and
//! persists the new owner and price — all or nothing: on any error every
//! balance and every record is left exactly as it was. `drain` lets the
//! administrative principal destroy part of the treasury balance.

use crate::accounts::Config;
use crate::accounts::FeeSink;
use crate::accounts::Pubkey;
use crate::accounts::TokenAccount;
use crate::error::BonkError;
use crate::pricing::spec_resale_quote;
use crate::pricing::resale_quote;
use crate::pricing::ResaleQuote;
use crate::registry::has_id;
use crate::registry::id_at;
use crate::registry::index_of_id;
use crate::registry::lemma_id_index_unique;
use crate::registry::recorded_owner;
use crate::registry::Registry;
use crate::registry::Tweet;
use crate::INITIAL_PRICE_UNITS;
use vstd::prelude::*;

verus! {

/// The token balances a purchase may move: the buyer's funds account, the
/// previous owner's funds account where the record already has an owner,
/// and the treasury of the payment token.
#[derive(Clone, Copy, Debug, PartialEq, Eq, Structural)]
pub struct PurchaseAccounts {
    pub buyer_acc: TokenAccount,
    pub seller_acc: Option<TokenAccount>,
    pub treasury: TokenAccount,
}

/// What a successful purchase moved and recorded.
#[derive(Clone, Copy, Debug, PartialEq, Eq, Structural)]
pub struct Receipt {
    /// Paid to the previous owner; zero on a first sale.
    pub seller_payment: u64,
    /// The fee leg; the full initial price on a first sale.
    pub fee: u64,
    /// The part of the fee leg destroyed rather than moved; zero under
    /// `FeeSink::Transfer`.
    pub burned: u64,
    /// The price now stored in the record.
    pub new_price: u64,
    /// The owner now stored in the record.
    pub new_owner: Pubkey,
}

/// The outcome of a first sale: the buyer pays the fixed initial price into
/// the fee leg and becomes the owner; a record is created, or the still
/// unowned record is filled in.
pub open spec fn spec_first_sale(
    reg: Seq<Tweet>,
    config: Config,
    tweet_id: String,
    buyer: Pubkey,
    accs: PurchaseAccounts,
) -> (Result<Receipt, BonkError>, Seq<Tweet>, PurchaseAccounts) {
    let price = INITIAL_PRICE_UNITS;
    if accs.buyer_acc.balance < price {
        (Err(BonkError::NotEnoughFunds), reg, accs)
    } else if config.fee_sink is Transfer && accs.treasury.balance + price > u64::MAX {
        (Err(BonkError::NotEnoughFunds), reg, accs)
    } else {
        let new_accs = PurchaseAccounts {
            buyer_acc: TokenAccount {
                owner: accs.buyer_acc.owner,
                mint: accs.buyer_acc.mint,
                balance: (accs.buyer_acc.balance - price) as u64,
            },
            seller_acc: accs.seller_acc,
            treasury: if config.fee_sink is Transfer {
                TokenAccount {
                    owner: accs.treasury.owner,
                    mint: accs.treasury.mint,
                    balance: (accs.treasury.balance + price) as u64,
                }
            } else {
                accs.treasury
            },
        };
        let new_reg = if has_id(reg, tweet_id@) {
            let i = index_of_id(reg, tweet_id@);
            reg.update(
                i,
                Tweet { tweet_id: reg[i].tweet_id, owner: Some(buyer), price: Some(price) },
            )
        } else {
            reg.push(Tweet { tweet_id, owner: Some(buyer), price: Some(price) })
        };
        let receipt = Receipt {
            seller_payment: 0,
            fee: price,
            burned: if config.fee_sink is Destroy {
                price
            } else {
                0
            },
            new_price: price,
            new_owner: buyer,
        };
        (Ok(receipt), new_reg, new_accs)
    }
}

/// The outcome of a resale of the record at index `i`: the supplied
/// previous-owner account is validated, the pricing engine is asked for
/// the split, the buyer pays both legs, and the record passes to the buyer
/// at the grown price.
pub open spec fn spec_resale(
    reg: Seq<Tweet>,
    config: Config,
    i: int,
    buyer: Pubkey,
    accs: PurchaseAccounts,
    mint: Pubkey,
) -> (Result<Receipt, BonkError>, Seq<Tweet>, PurchaseAccounts) {
    let t = reg[i];
    let owner = t.owner->0;
    match accs.seller_acc {
        None => (Err(BonkError::NotATokenAccount), reg, accs),
        Some(seller) => {
            if seller.mint != mint {
                (Err(BonkError::NotATokenAccount), reg, accs)
            } else if seller.owner != owner {
                (Err(BonkError::WrongSellerAccount), reg, accs)
            } else {
                match spec_resale_quote(owner, t.price->0, buyer) {
                    Err(e) => (Err(e), reg, accs),
                    Ok(q) => spec_settle_resale(reg, config, i, buyer, accs, seller, q),
                }
            }
        },
    }
}

/// The payment and record mutation of a priced resale: each leg that lacks
/// funds or room fails the whole request with `NotEnoughFunds`; otherwise
/// the balances move and the record is rewritten.
pub open spec fn spec_settle_resale(
    reg: Seq<Tweet>,
    config: Config,
    i: int,
    buyer: Pubkey,
    accs: PurchaseAccounts,
    seller: TokenAccount,
    q: ResaleQuote,
) -> (Result<Receipt, BonkError>, Seq<Tweet>, PurchaseAccounts) {
    if accs.buyer_acc.balance < q.seller_payment {
        (Err(BonkError::NotEnoughFunds), reg, accs)
    } else if seller.balance + q.seller_payment > u64::MAX {
        (Err(BonkError::NotEnoughFunds), reg, accs)
    } else if accs.buyer_acc.balance - q.seller_payment < q.fee {
        (Err(BonkError::NotEnoughFunds), reg, accs)
    } else if config.fee_sink is Transfer && accs.treasury.balance + q.fee > u64::MAX {
        (Err(BonkError::NotEnoughFunds), reg, accs)
    } else {
        let new_accs = PurchaseAccounts {
            buyer_acc: TokenAccount {
                owner: accs.buyer_acc.owner,
                mint: accs.buyer_acc.mint,
                balance: (accs.buyer_acc.balance - q.seller_payment - q.fee) as u64,
            },
            seller_acc: Some(
                TokenAccount {
                    owner: seller.owner,
                    mint: seller.mint,
                    balance: (seller.balance + q.seller_payment) as u64,
                },
            ),
            treasury: if config.fee_sink is Transfer {
                TokenAccount {
                    owner: accs.treasury.owner,
                    mint: accs.treasury.mint,
                    balance: (accs.treasury.balance + q.fee) as u64,
                }
            } else {
                accs.treasury
            },
        };
        let new_reg = reg.update(
            i,
            Tweet { tweet_id: reg[i].tweet_id, owner: Some(buyer), price: Some(q.new_price) },
        );
        let receipt = Receipt {
            seller_payment: q.seller_payment,
            fee: q.fee,
            burned: if config.fee_sink is Destroy {
                q.fee
            } else {
                0
            },
            new_price: q.new_price,
            new_owner: buyer,
        };
        (Ok(receipt), new_reg, new_accs)
    }
}

/// The full outcome of a purchase request: the result handed back, the
/// registry contents afterwards, and the account balances afterwards. On
/// every error the registry and the accounts are unchanged.
pub open spec fn spec_purchase(
    reg: Seq<Tweet>,
    config: Config,
    tweet_id: String,
    buyer: Pubkey,
    accs: PurchaseAccounts,
    mint: Pubkey,
) -> (Result<Receipt, BonkError>, Seq<Tweet>, PurchaseAccounts) {
    if mint != config.bonk_mint {
        (Err(BonkError::WrongTokenMint), reg, accs)
    } else if has_id(reg, tweet_id@) && reg[index_of_id(reg, tweet_id@)].owner is Some {
        spec_resale(reg, config, index_of_id(reg, tweet_id@), buyer, accs, mint)
    } else {
        spec_first_sale(reg, config, tweet_id, buyer, accs)
    }
}

impl Registry {
    /// Purchase `tweet_id` for `buyer`, paying from and into the supplied
    /// balances under the supplied payment-token identity `mint`. The
    /// entire outcome — result, registry and balances — is the one
    /// `spec_purchase` names; errors leave registry and balances untouched.
    pub fn purchase(
        &mut self,
        config: &Config,
        tweet_id: String,
        buyer: Pubkey,
        mint: Pubkey,
        accs: &mut PurchaseAccounts,
    ) -> (r: Result<Receipt, BonkError>)
        requires
            old(self).wf(),
            mint == config.bonk_mint && recorded_owner(old(self).tweets@, tweet_id@) is Some
                ==> old(accs).seller_acc is Some,
            mint == config.bonk_mint ==> old(accs).buyer_acc.owner == buyer
                && old(accs).buyer_acc.mint == mint && old(accs).treasury.mint == mint,
        ensures
            ({
                let out = spec_purchase(old(self).tweets@, *config, tweet_id, buyer, *old(accs), mint);
                r == out.0 && final(self).tweets@ == out.1 && *final(accs) == out.2
            }),
            final(self).wf(),
    {
        if !(mint == config.bonk_mint) {
            return Err(BonkError::WrongTokenMint);
        }
        let found = self.find_index(&tweet_id);
        match found {
            Some(i) => {
                proof {
                    lemma_id_index_unique(self.tweets@, tweet_id@, i as int);
                }
                let t_owner = self.tweets[i].owner;
                match t_owner {
                    Some(owner) => self.resale(config, i, owner, buyer, mint, accs),
                    None => self.first_sale(config, tweet_id, Some(i), buyer, accs),
                }
            },
            None => self.first_sale(config, tweet_id, None, buyer, accs),
        }
    }

    /// The first-sale path: the fixed initial price is paid into the fee
    /// leg and the record is created or filled in.
    fn first_sale(
        &mut self,
        config: &Config,
        tweet_id: String,
        found: Option<usize>,
        buyer: Pubkey,
        accs: &mut PurchaseAccounts,
    ) -> (r: Result<Receipt, BonkError>)
        requires
            old(self).wf(),
            match found {
                Some(i) => id_at(old(self).tweets@, tweet_id@, i as int) && old(
                    self,
                ).tweets@[i as int].owner is None,
                None => !has_id(old(self).tweets@, tweet_id@),
            },
        ensures
            ({
                let out = spec_first_sale(old(self).tweets@, *config, tweet_id, buyer, *old(accs));
                r == out.0 && final(self).tweets@ == out.1 && *final(accs) == out.2
            }),
            final(self).wf(),
    {
        let ghost reg0 = self.tweets@;
        let price = INITIAL_PRICE_UNITS;
        if accs.buyer_acc.balance < price {
            return Err(BonkError::NotEnoughFunds);
        }
        let to_treasury = matches!(config.fee_sink, FeeSink::Transfer);
        if to_treasury && accs.treasury.balance > u64::MAX - price {
            return Err(BonkError::NotEnoughFunds);
        }
        accs.buyer_acc.balance = accs.buyer_acc.balance - price;
        if to_treasury {
            accs.treasury.balance = accs.treasury.balance + price;
        }
        let burned = if to_treasury {
            0
        } else {
            price
        };
        match found {
            Some(i) => {
                proof {
                    lemma_id_index_unique(reg0, tweet_id@, i as int);
                }
                let old_t = self.tweets.remove(i);
                self.tweets.insert(
                    i,
                    Tweet { tweet_id: old_t.tweet_id, owner: Some(buyer), price: Some(price) },
                );
                proof {
                    let newt = Tweet {
                        tweet_id: reg0[i as int].tweet_id,
                        owner: Some(buyer),
                        price: Some(price),
                    };
                    assert(self.tweets@ =~= reg0.update(i as int, newt));
                    assert(self.wf()) by {
                        assert forall|a: int, b: int|
                            0 <= a < b < self.tweets@.len() implies (
                        #[trigger] self.tweets@[a]).tweet_id@ != (
                        #[trigger] self.tweets@[b]).tweet_id@ by {
                            assert(reg0[a].tweet_id@ != reg0[b].tweet_id@);
                        }
                    }
                }
            },
            None => {
                self.tweets.push(Tweet { tweet_id, owner: Some(buyer), price: Some(price) });
                proof {
                    assert(self.wf()) by {
                        assert forall|a: int, b: int|
                            0 <= a < b < self.tweets@.len() implies (
                        #[trigger] self.tweets@[a]).tweet_id@ != (
                        #[trigger] self.tweets@[b]).tweet_id@ by {
                            if b == reg0.len() {
                                assert(!id_at(reg0, self.tweets@[b].tweet_id@, a));
                            } else {
                                assert(reg0[a].tweet_id@ != reg0[b].tweet_id@);
                            }
                        }
                    }
                }
            },
        }
        Ok(
            Receipt {
                seller_payment: 0,
                fee: price,
                burned,
                new_price: price,
                new_owner: buyer,
            },
        )
    }

    /// The resale path: validate the previous-owner account, price the
    /// sale, move both payment legs, rewrite the record.
    fn resale(
        &mut self,
        config: &Config,
        i: usize,
        owner: Pubkey,
        buyer: Pubkey,
        mint: Pubkey,
        accs: &mut PurchaseAccounts,
    ) -> (r: Result<Receipt, BonkError>)
        requires
            old(self).wf(),
            i < old(self).tweets@.len(),
            old(self).tweets@[i as int].owner == Some(owner),
        ensures
            ({
                let out = spec_resale(old(self).tweets@, *config, i as int, buyer, *old(accs), mint);
                r == out.0 && final(self).tweets@ == out.1 && *final(accs) == out.2
            }),
            final(self).wf(),
    {
        let ghost reg0 = self.tweets@;
        let seller = match accs.seller_acc {
            Some(s) => s,
            None => {
                return Err(BonkError::NotATokenAccount);
            },
        };
        if seller.mint != mint {
            return Err(BonkError::NotATokenAccount);
        }
        if seller.owner != owner {
            return Err(BonkError::WrongSellerAccount);
        }
        let p = match self.tweets[i].price {
            Some(p) => p,
            None => {
                proof {
                    assert(self.tweets@[i as int].wf());
                }
                vstd::pervasive::unreached()
            },
        };
        let q = match resale_quote(owner, p, buyer) {
            Ok(q) => q,
            Err(e) => {
                return Err(e);
            },
        };
        if accs.buyer_acc.balance < q.seller_payment {
            return Err(BonkError::NotEnoughFunds);
        }
        if seller.balance > u64::MAX - q.seller_payment {
            return Err(BonkError::NotEnoughFunds);
        }
        let remaining = accs.buyer_acc.balance - q.seller_payment;
        if remaining < q.fee {
            return Err(BonkError::NotEnoughFunds);
        }
        let to_treasury = matches!(config.fee_sink, FeeSink::Transfer);
        if to_treasury && accs.treasury.balance > u64::MAX - q.fee {
            return Err(BonkError::NotEnoughFunds);
        }
        accs.buyer_acc.balance = remaining - q.fee;
        accs.seller_acc = Some(
            TokenAccount {
                owner: seller.owner,
                mint: seller.mint,
                balance: seller.balance + q.seller_payment,
            },
        );
        if to_treasury {
            accs.treasury.balance = accs.treasury.balance + q.fee;
        }
        let burned = if to_treasury {
            0
        } else {
            q.fee
        };
        let old_t = self.tweets.remove(i);
        self.tweets.insert(
            i,
            Tweet { tweet_id: old_t.tweet_id, owner: Some(buyer), price: Some(q.new_price) },
        );
        proof {
            let newt = Tweet {
                tweet_id: reg0[i as int].tweet_id,
                owner: Some(buyer),
                price: Some(q.new_price),
            };
            assert(self.tweets@ =~= reg0.update(i as int, newt));
            assert(self.wf()) by {
                assert forall|a: int, b: int|
                    0 <= a < b < self.tweets@.len() implies (
                #[trigger] self.tweets@[a]).tweet_id@ != (#[trigger] self.tweets@[b]).tweet_id@ by {
                    assert(reg0[a].tweet_id@ != reg0[b].tweet_id@);
                }
            }
        }
        Ok(
            Receipt {
                seller_payment: q.seller_payment,
                fee: q.fee,
                burned,
                new_price: q.new_price,
                new_owner: buyer,
            },
        )
    }
}

/// Destroy `amount` of the treasury balance. Only the administrative
/// principal may call this; an amount beyond the balance is rejected by
/// the destruction primitive. Either error leaves the treasury unchanged;
/// on success the balance drops by exactly `amount`.
pub fn drain(config: &Config, caller: Pubkey, treasury: &mut TokenAccount, amount: u64) -> (r:
    Result<(), BonkError>)
    ensures
        caller != config.authority ==> r == Err::<(), BonkError>(BonkError::NotAuthorized)
            && *final(treasury) == *old(treasury),
        caller == config.authority && amount > old(treasury).balance ==> r == Err::<(), BonkError>(
            BonkError::DestroyError,
        ) && *final(treasury) == *old(treasury),
        caller == config.authority && amount <= old(treasury).balance ==> r == Ok::<(), BonkError>(
            (),
        ) && final(treasury).balance == old(treasury).balance - amount && final(treasury).owner
            == old(treasury).owner && final(treasury).mint == old(treasury).mint,
{
    if caller != config.authority {
        return Err(BonkError::NotAuthorized);
    }
    if amount > treasury.balance {
        return Err(BonkError::DestroyError);
    }
    treasury.balance = treasury.balance - amount;
    Ok(())
}

} // verus!
