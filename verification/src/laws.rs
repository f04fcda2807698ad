//! Market laws: proofs that hold of every purchase, stated over the same
//! `spec_purchase` outcome that `Registry::purchase` is proved to realize.

use crate::accounts::Config;
use crate::accounts::Pubkey;
use crate::accounts::TokenAccount;
use crate::error::BonkError;
use crate::market::spec_purchase;
use crate::market::PurchaseAccounts;
use crate::market::Receipt;
use crate::pricing::spec_fee;
use crate::pricing::spec_grown_price;
use crate::pricing::spec_seller_payment;
use crate::registry::all_wf;
use crate::registry::has_id;
use crate::registry::id_at;
use crate::registry::index_of_id;
use crate::registry::lemma_id_index_unique;
use crate::registry::unique_ids;
use crate::registry::Tweet;
use crate::INITIAL_PRICE_UNITS;
use vstd::prelude::*;

verus! {

/// A purchase keeps the registry invariant: records stay well formed and
/// no identifier is ever recorded twice.
pub proof fn lemma_purchase_preserves_wf(
    reg: Seq<Tweet>,
    config: Config,
    tweet_id: String,
    buyer: Pubkey,
    accs: PurchaseAccounts,
    mint: Pubkey,
)
    requires
        unique_ids(reg),
        all_wf(reg),
    ensures
        unique_ids(spec_purchase(reg, config, tweet_id, buyer, accs, mint).1),
        all_wf(spec_purchase(reg, config, tweet_id, buyer, accs, mint).1),
{
    let out = spec_purchase(reg, config, tweet_id, buyer, accs, mint);
    let reg2 = out.1;
    if reg2 == reg {
        // every error branch leaves the registry as it was
    } else {
        assert forall|a: int, b: int|
            0 <= a < b < reg2.len() implies (#[trigger] reg2[a]).tweet_id@ != (
        #[trigger] reg2[b]).tweet_id@ by {
            if b < reg.len() {
                assert(reg[a].tweet_id@ != reg[b].tweet_id@);
            } else {
                // only a push can lengthen the registry, and it pushes an
                // identifier that no record carried
                assert(!id_at(reg, reg2[b].tweet_id@, a));
            }
        }
        assert forall|i: int| 0 <= i < reg2.len() implies (#[trigger] reg2[i]).wf() by {
            if i < reg.len() {
                assert(reg[i].wf());
            }
        }
    }
}

/// First sale: for an identifier no record carries, a purchase under the
/// configured mint succeeds exactly when the buyer's balance covers the
/// initial price; it then records the buyer as owner at the initial price
/// and debits the buyer by exactly that price. With a lesser balance it
/// fails with `NotEnoughFunds` and changes nothing.
pub proof fn lemma_first_purchase(
    reg: Seq<Tweet>,
    config: Config,
    tweet_id: String,
    buyer: Pubkey,
    accs: PurchaseAccounts,
    mint: Pubkey,
)
    requires
        unique_ids(reg),
        all_wf(reg),
        !has_id(reg, tweet_id@),
        mint == config.bonk_mint,
        config.fee_sink is Destroy || accs.treasury.balance + INITIAL_PRICE_UNITS <= u64::MAX,
    ensures
        ({
            let out = spec_purchase(reg, config, tweet_id, buyer, accs, mint);
            &&& (out.0 is Ok <==> accs.buyer_acc.balance >= INITIAL_PRICE_UNITS)
            &&& (accs.buyer_acc.balance < INITIAL_PRICE_UNITS ==> out == (
                Err::<Receipt, BonkError>(BonkError::NotEnoughFunds),
                reg,
                accs,
            ))
            &&& (out.0 is Ok ==> {
                let i = index_of_id(out.1, tweet_id@);
                &&& has_id(out.1, tweet_id@)
                &&& out.1[i].owner == Some(buyer)
                &&& out.1[i].price == Some(INITIAL_PRICE_UNITS)
                &&& out.2.buyer_acc.balance == accs.buyer_acc.balance - INITIAL_PRICE_UNITS
            })
        }),
{
    let out = spec_purchase(reg, config, tweet_id, buyer, accs, mint);
    if accs.buyer_acc.balance >= INITIAL_PRICE_UNITS {
        let t = Tweet { tweet_id, owner: Some(buyer), price: Some(INITIAL_PRICE_UNITS) };
        let reg2 = reg.push(t);
        assert(id_at(reg2, tweet_id@, reg.len() as int));
        lemma_purchase_preserves_wf(reg, config, tweet_id, buyer, accs, mint);
        lemma_id_index_unique(reg2, tweet_id@, reg.len() as int);
    }
}

/// Resale: a purchase by a buyer other than the recorded owner, under
/// valid accounts and sufficient funds, succeeds; the previous owner
/// receives exactly `p + p / 10`, the fee leg moves or destroys exactly
/// `p / 10`, the buyer's debit is the sum of both legs, and the record
/// passes to the buyer at price `p + p / 5`, never lower than before.
pub proof fn lemma_resale(
    reg: Seq<Tweet>,
    config: Config,
    tweet_id: String,
    buyer: Pubkey,
    accs: PurchaseAccounts,
    mint: Pubkey,
    owner: Pubkey,
    p: u64,
    seller: TokenAccount,
)
    requires
        unique_ids(reg),
        all_wf(reg),
        has_id(reg, tweet_id@),
        reg[index_of_id(reg, tweet_id@)].owner == Some(owner),
        reg[index_of_id(reg, tweet_id@)].price == Some(p),
        mint == config.bonk_mint,
        accs.seller_acc == Some(seller),
        seller.mint == mint,
        seller.owner == owner,
        buyer != owner,
        spec_seller_payment(p) <= u64::MAX,
        spec_grown_price(p) <= u64::MAX,
        accs.buyer_acc.balance >= spec_seller_payment(p) + spec_fee(p),
        seller.balance + spec_seller_payment(p) <= u64::MAX,
        config.fee_sink is Transfer ==> accs.treasury.balance + spec_fee(p) <= u64::MAX,
    ensures
        ({
            let out = spec_purchase(reg, config, tweet_id, buyer, accs, mint);
            let i = index_of_id(reg, tweet_id@);
            &&& out.0 == Ok::<Receipt, BonkError>(
                Receipt {
                    seller_payment: spec_seller_payment(p) as u64,
                    fee: spec_fee(p) as u64,
                    burned: if config.fee_sink is Destroy {
                        spec_fee(p) as u64
                    } else {
                        0
                    },
                    new_price: spec_grown_price(p) as u64,
                    new_owner: buyer,
                },
            )
            &&& out.1 == reg.update(
                i,
                (Tweet {
                    tweet_id: reg[i].tweet_id,
                    owner: Some(buyer),
                    price: Some(spec_grown_price(p) as u64),
                }),
            )
            &&& out.2.seller_acc == Some(
                (TokenAccount {
                    owner: seller.owner,
                    mint: seller.mint,
                    balance: (seller.balance + spec_seller_payment(p)) as u64,
                }),
            )
            &&& out.2.buyer_acc.balance == accs.buyer_acc.balance - spec_seller_payment(p)
                - spec_fee(p)
            &&& (config.fee_sink is Transfer ==> out.2.treasury.balance == accs.treasury.balance
                + spec_fee(p))
            &&& (config.fee_sink is Destroy ==> out.2.treasury == accs.treasury)
            &&& spec_grown_price(p) >= p
        }),
{
}

/// A purchase by the recorded owner of the identifier, presented with that
/// owner's valid account, fails with `AlreadyOwner` and changes nothing.
pub proof fn lemma_already_owner(
    reg: Seq<Tweet>,
    config: Config,
    tweet_id: String,
    buyer: Pubkey,
    accs: PurchaseAccounts,
    mint: Pubkey,
    seller: TokenAccount,
)
    requires
        unique_ids(reg),
        all_wf(reg),
        has_id(reg, tweet_id@),
        reg[index_of_id(reg, tweet_id@)].owner == Some(buyer),
        mint == config.bonk_mint,
        accs.seller_acc == Some(seller),
        seller.mint == mint,
        seller.owner == buyer,
    ensures
        spec_purchase(reg, config, tweet_id, buyer, accs, mint) == (
            Err::<Receipt, BonkError>(BonkError::AlreadyOwner),
            reg,
            accs,
        ),
{
}

/// A purchase presenting a previous-owner account that the recorded owner
/// does not own fails with `WrongSellerAccount` and changes nothing.
pub proof fn lemma_wrong_seller(
    reg: Seq<Tweet>,
    config: Config,
    tweet_id: String,
    buyer: Pubkey,
    accs: PurchaseAccounts,
    mint: Pubkey,
    owner: Pubkey,
    seller: TokenAccount,
)
    requires
        unique_ids(reg),
        all_wf(reg),
        has_id(reg, tweet_id@),
        reg[index_of_id(reg, tweet_id@)].owner == Some(owner),
        mint == config.bonk_mint,
        accs.seller_acc == Some(seller),
        seller.mint == mint,
        seller.owner != owner,
    ensures
        spec_purchase(reg, config, tweet_id, buyer, accs, mint) == (
            Err::<Receipt, BonkError>(BonkError::WrongSellerAccount),
            reg,
            accs,
        ),
{
}

/// Two successful resales of the same identifier compound its price by the
/// growth step each time — the second resale grows the already-grown
/// price, never adds a flat delta computed from the first.
pub proof fn lemma_resale_compounds(
    reg: Seq<Tweet>,
    config: Config,
    tweet_id: String,
    buyer1: Pubkey,
    accs1: PurchaseAccounts,
    buyer2: Pubkey,
    accs2: PurchaseAccounts,
    mint: Pubkey,
    p: u64,
)
    requires
        unique_ids(reg),
        all_wf(reg),
        has_id(reg, tweet_id@),
        reg[index_of_id(reg, tweet_id@)].owner is Some,
        reg[index_of_id(reg, tweet_id@)].price == Some(p),
        spec_purchase(reg, config, tweet_id, buyer1, accs1, mint).0 is Ok,
        spec_purchase(
            spec_purchase(reg, config, tweet_id, buyer1, accs1, mint).1,
            config,
            tweet_id,
            buyer2,
            accs2,
            mint,
        ).0 is Ok,
    ensures
        ({
            let reg1 = spec_purchase(reg, config, tweet_id, buyer1, accs1, mint).1;
            let reg2 = spec_purchase(reg1, config, tweet_id, buyer2, accs2, mint).1;
            let mid_price = spec_grown_price(p) as u64;
            &&& reg1[index_of_id(reg1, tweet_id@)].price == Some(mid_price)
            &&& reg2[index_of_id(reg2, tweet_id@)].price == Some(spec_grown_price(mid_price) as u64)
        }),
{
    let i = index_of_id(reg, tweet_id@);
    lemma_id_index_unique(reg, tweet_id@, i);
    let reg1 = spec_purchase(reg, config, tweet_id, buyer1, accs1, mint).1;
    lemma_purchase_preserves_wf(reg, config, tweet_id, buyer1, accs1, mint);
    assert(id_at(reg1, tweet_id@, i));
    lemma_id_index_unique(reg1, tweet_id@, i);
    let reg2 = spec_purchase(reg1, config, tweet_id, buyer2, accs2, mint).1;
    lemma_purchase_preserves_wf(reg1, config, tweet_id, buyer2, accs2, mint);
    assert(id_at(reg2, tweet_id@, i));
    lemma_id_index_unique(reg2, tweet_id@, i);
}

} // verus!
