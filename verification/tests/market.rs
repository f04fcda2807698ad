use bonkinator::market::drain;
use bonkinator::market::PurchaseAccounts;
use bonkinator::pricing::compute_quote;
use bonkinator::pricing::Quote;
use bonkinator::pricing::ResaleQuote;
use bonkinator::BonkError;
use bonkinator::Config;
use bonkinator::FeeSink;
use bonkinator::Pubkey;
use bonkinator::Registry;
use bonkinator::TokenAccount;
use bonkinator::Tweet;
use bonkinator::INITIAL_PRICE_UNITS;

fn key(n: u64) -> Pubkey {
    Pubkey { w0: n, w1: 0, w2: 0, w3: 0 }
}

fn config(sink: FeeSink) -> Config {
    Config { bonk_mint: key(900), authority: key(700), fee_sink: sink }
}

fn accounts(buyer: Pubkey, balance: u64, seller: Option<TokenAccount>, treasury_balance: u64) -> PurchaseAccounts {
    PurchaseAccounts {
        buyer_acc: TokenAccount { owner: buyer, mint: key(900), balance },
        seller_acc: seller,
        treasury: TokenAccount { owner: key(701), mint: key(900), balance: treasury_balance },
    }
}

fn registry_with(owner: Pubkey, price: u64) -> Registry {
    Registry {
        tweets: vec![Tweet {
            tweet_id: "x".to_string(),
            owner: Some(owner),
            price: Some(price),
        }],
    }
}

#[test]
fn first_purchase_succeeds_with_exact_initial_price() {
    let cfg = config(FeeSink::Transfer);
    let buyer = key(1);
    let mut reg = Registry::new();
    let mut accs = accounts(buyer, INITIAL_PRICE_UNITS, None, 5);
    let r = reg.purchase(&cfg, "x".to_string(), buyer, key(900), &mut accs).unwrap();
    assert_eq!(r.seller_payment, 0);
    assert_eq!(r.fee, 1_000_000_000);
    assert_eq!(r.burned, 0);
    assert_eq!(r.new_price, 1_000_000_000);
    assert_eq!(r.new_owner, buyer);
    assert_eq!(accs.buyer_acc.balance, 0);
    assert_eq!(accs.treasury.balance, 1_000_000_005);
    assert_eq!(reg.tweets.len(), 1);
    assert_eq!(reg.tweets[0].tweet_id, "x");
    assert_eq!(reg.tweets[0].owner, Some(buyer));
    assert_eq!(reg.tweets[0].price, Some(1_000_000_000));
}

#[test]
fn first_purchase_fails_one_unit_short() {
    let cfg = config(FeeSink::Transfer);
    let buyer = key(1);
    let mut reg = Registry::new();
    let mut accs = accounts(buyer, INITIAL_PRICE_UNITS - 1, None, 5);
    let r = reg.purchase(&cfg, "x".to_string(), buyer, key(900), &mut accs);
    assert_eq!(r, Err(BonkError::NotEnoughFunds));
    assert_eq!(reg.tweets.len(), 0);
    assert_eq!(accs.buyer_acc.balance, INITIAL_PRICE_UNITS - 1);
    assert_eq!(accs.treasury.balance, 5);
}

#[test]
fn first_purchase_destroy_sink_burns_full_price() {
    let cfg = config(FeeSink::Destroy);
    let buyer = key(1);
    let mut reg = Registry::new();
    let mut accs = accounts(buyer, 2_000_000_000, None, 5);
    let r = reg.purchase(&cfg, "x".to_string(), buyer, key(900), &mut accs).unwrap();
    assert_eq!(r.burned, 1_000_000_000);
    assert_eq!(accs.buyer_acc.balance, 1_000_000_000);
    assert_eq!(accs.treasury.balance, 5);
}

#[test]
fn resale_splits_payment_exactly() {
    let cfg = config(FeeSink::Transfer);
    let a = key(1);
    let b = key(2);
    let mut reg = registry_with(a, 100_000);
    let seller = TokenAccount { owner: a, mint: key(900), balance: 40 };
    let mut accs = accounts(b, 500_000, Some(seller), 7);
    let r = reg.purchase(&cfg, "x".to_string(), b, key(900), &mut accs).unwrap();
    assert_eq!(r.seller_payment, 110_000);
    assert_eq!(r.fee, 10_000);
    assert_eq!(r.burned, 0);
    assert_eq!(r.new_price, 120_000);
    assert_eq!(r.new_owner, b);
    assert_eq!(accs.seller_acc.unwrap().balance, 110_040);
    assert_eq!(accs.treasury.balance, 10_007);
    // the buyer's debit is the sum of both legs
    assert_eq!(accs.buyer_acc.balance, 500_000 - 110_000 - 10_000);
    assert_eq!(reg.tweets[0].owner, Some(b));
    assert_eq!(reg.tweets[0].price, Some(120_000));
}

#[test]
fn resale_destroy_sink_burns_fee_only() {
    let cfg = config(FeeSink::Destroy);
    let a = key(1);
    let b = key(2);
    let mut reg = registry_with(a, 100_000);
    let seller = TokenAccount { owner: a, mint: key(900), balance: 0 };
    let mut accs = accounts(b, 500_000, Some(seller), 7);
    let r = reg.purchase(&cfg, "x".to_string(), b, key(900), &mut accs).unwrap();
    assert_eq!(r.fee, 10_000);
    assert_eq!(r.burned, 10_000);
    assert_eq!(accs.seller_acc.unwrap().balance, 110_000);
    assert_eq!(accs.treasury.balance, 7);
    assert_eq!(accs.buyer_acc.balance, 380_000);
}

#[test]
fn resale_by_owner_fails_already_owner() {
    let cfg = config(FeeSink::Transfer);
    let a = key(1);
    let mut reg = registry_with(a, 100_000);
    let seller = TokenAccount { owner: a, mint: key(900), balance: 0 };
    let mut accs = accounts(a, 500_000, Some(seller), 0);
    let r = reg.purchase(&cfg, "x".to_string(), a, key(900), &mut accs);
    assert_eq!(r, Err(BonkError::AlreadyOwner));
    assert_eq!(reg.tweets[0].owner, Some(a));
    assert_eq!(reg.tweets[0].price, Some(100_000));
    assert_eq!(accs.buyer_acc.balance, 500_000);
}

#[test]
fn two_resales_compound_the_price() {
    let cfg = config(FeeSink::Transfer);
    let a = key(1);
    let b = key(2);
    let c = key(3);
    let mut reg = registry_with(a, 100_000);
    let seller_a = TokenAccount { owner: a, mint: key(900), balance: 0 };
    let mut accs = accounts(b, 1_000_000, Some(seller_a), 0);
    reg.purchase(&cfg, "x".to_string(), b, key(900), &mut accs).unwrap();
    assert_eq!(reg.tweets[0].price, Some(120_000));
    let seller_b = TokenAccount { owner: b, mint: key(900), balance: 0 };
    let mut accs2 = accounts(c, 1_000_000, Some(seller_b), 0);
    let r = reg.purchase(&cfg, "x".to_string(), c, key(900), &mut accs2).unwrap();
    // 120_000 grows by a fifth of itself, not by the first flat delta
    assert_eq!(r.new_price, 144_000);
    assert_eq!(reg.tweets[0].price, Some(144_000));
    assert_eq!(reg.tweets[0].owner, Some(c));
}

#[test]
fn wrong_seller_account_rejected_and_record_unchanged() {
    let cfg = config(FeeSink::Transfer);
    let a = key(1);
    let b = key(2);
    let mut reg = registry_with(a, 100_000);
    let stranger = TokenAccount { owner: key(5), mint: key(900), balance: 0 };
    let mut accs = accounts(b, 500_000, Some(stranger), 7);
    let r = reg.purchase(&cfg, "x".to_string(), b, key(900), &mut accs);
    assert_eq!(r, Err(BonkError::WrongSellerAccount));
    assert_eq!(reg.tweets[0].owner, Some(a));
    assert_eq!(reg.tweets[0].price, Some(100_000));
    assert_eq!(accs.buyer_acc.balance, 500_000);
    assert_eq!(accs.treasury.balance, 7);
}

#[test]
fn wrong_mint_rejected() {
    let cfg = config(FeeSink::Transfer);
    let buyer = key(1);
    let mut reg = Registry::new();
    let mut accs = accounts(buyer, 2_000_000_000, None, 0);
    let r = reg.purchase(&cfg, "x".to_string(), buyer, key(901), &mut accs);
    assert_eq!(r, Err(BonkError::WrongTokenMint));
    assert_eq!(reg.tweets.len(), 0);
    assert_eq!(accs.buyer_acc.balance, 2_000_000_000);
}

#[test]
fn seller_account_of_other_token_rejected() {
    let cfg = config(FeeSink::Transfer);
    let a = key(1);
    let b = key(2);
    let mut reg = registry_with(a, 100_000);
    let other_token = TokenAccount { owner: a, mint: key(901), balance: 0 };
    let mut accs = accounts(b, 500_000, Some(other_token), 0);
    let r = reg.purchase(&cfg, "x".to_string(), b, key(900), &mut accs);
    assert_eq!(r, Err(BonkError::NotATokenAccount));
    assert_eq!(reg.tweets[0].price, Some(100_000));
}

#[test]
fn resale_overflow_rejected() {
    let cfg = config(FeeSink::Transfer);
    let a = key(1);
    let b = key(2);
    let mut reg = registry_with(a, u64::MAX);
    let seller = TokenAccount { owner: a, mint: key(900), balance: 0 };
    let mut accs = accounts(b, u64::MAX, Some(seller), 0);
    let r = reg.purchase(&cfg, "x".to_string(), b, key(900), &mut accs);
    assert_eq!(r, Err(BonkError::Overflow));
    assert_eq!(reg.tweets[0].owner, Some(a));
    assert_eq!(reg.tweets[0].price, Some(u64::MAX));
    assert_eq!(accs.buyer_acc.balance, u64::MAX);
}

#[test]
fn resale_insufficient_funds_leaves_everything() {
    let cfg = config(FeeSink::Transfer);
    let a = key(1);
    let b = key(2);
    let mut reg = registry_with(a, 100_000);
    let seller = TokenAccount { owner: a, mint: key(900), balance: 3 };
    let mut accs = accounts(b, 119_999, Some(seller), 7);
    // 110_000 for the seller leg plus 10_000 for the fee leg is one unit
    // more than the buyer holds
    let r = reg.purchase(&cfg, "x".to_string(), b, key(900), &mut accs);
    assert_eq!(r, Err(BonkError::NotEnoughFunds));
    assert_eq!(accs.buyer_acc.balance, 119_999);
    assert_eq!(accs.seller_acc.unwrap().balance, 3);
    assert_eq!(accs.treasury.balance, 7);
    assert_eq!(reg.tweets[0].owner, Some(a));
    assert_eq!(reg.tweets[0].price, Some(100_000));
}

#[test]
fn tiny_price_loses_truncated_fractions() {
    let cfg = config(FeeSink::Transfer);
    let a = key(1);
    let b = key(2);
    let mut reg = registry_with(a, 9);
    let seller = TokenAccount { owner: a, mint: key(900), balance: 0 };
    let mut accs = accounts(b, 100, Some(seller), 0);
    let r = reg.purchase(&cfg, "x".to_string(), b, key(900), &mut accs).unwrap();
    // 9 / 10 truncates to 0: the seller gets no surcharge, no fee moves
    assert_eq!(r.seller_payment, 9);
    assert_eq!(r.fee, 0);
    // 9 / 5 truncates to 1
    assert_eq!(r.new_price, 10);
}

#[test]
fn quote_for_unowned_record_is_initial_price() {
    let q = compute_quote(None, None, key(1)).unwrap();
    assert_eq!(q, Quote::FirstSale { price: 1_000_000_000 });
}

#[test]
fn quote_for_owned_record_is_exact_split() {
    let q = compute_quote(Some(key(1)), Some(100_000), key(2)).unwrap();
    assert_eq!(
        q,
        Quote::Resale(ResaleQuote {
            previous_owner: key(1),
            seller_payment: 110_000,
            fee: 10_000,
            new_price: 120_000,
        })
    );
}

#[test]
fn quote_for_own_record_rejected() {
    let q = compute_quote(Some(key(1)), Some(100_000), key(1));
    assert_eq!(q, Err(BonkError::AlreadyOwner));
}

#[test]
fn quote_overflow_rejected() {
    let q = compute_quote(Some(key(1)), Some(u64::MAX - 1), key(2));
    assert_eq!(q, Err(BonkError::Overflow));
}

#[test]
fn drain_by_stranger_rejected() {
    let cfg = config(FeeSink::Transfer);
    let mut treasury = TokenAccount { owner: key(701), mint: key(900), balance: 5_000 };
    let r = drain(&cfg, key(2), &mut treasury, 100);
    assert_eq!(r, Err(BonkError::NotAuthorized));
    assert_eq!(treasury.balance, 5_000);
}

#[test]
fn drain_by_authority_reduces_balance_exactly() {
    let cfg = config(FeeSink::Transfer);
    let mut treasury = TokenAccount { owner: key(701), mint: key(900), balance: 5_000 };
    let r = drain(&cfg, key(700), &mut treasury, 1_234);
    assert_eq!(r, Ok(()));
    assert_eq!(treasury.balance, 3_766);
}

#[test]
fn drain_beyond_balance_rejected() {
    let cfg = config(FeeSink::Transfer);
    let mut treasury = TokenAccount { owner: key(701), mint: key(900), balance: 5_000 };
    let r = drain(&cfg, key(700), &mut treasury, 5_001);
    assert_eq!(r, Err(BonkError::DestroyError));
    assert_eq!(treasury.balance, 5_000);
}

#[test]
fn lookup_finds_records() {
    let reg = registry_with(key(1), 100_000);
    let t = reg.lookup(&"x".to_string()).unwrap();
    assert_eq!(t.owner, Some(key(1)));
    assert_eq!(t.price, Some(100_000));
    assert!(reg.lookup(&"y".to_string()).is_none());
}

#[test]
fn end_to_end_two_buyers() {
    let cfg = config(FeeSink::Transfer);
    let a = key(1);
    let b = key(2);
    let mut reg = Registry::new();
    // buyer A purchases the unowned identifier at 10_000 whole tokens of
    // five decimal places
    let mut accs = accounts(a, 3_000_000_000, None, 0);
    reg.purchase(&cfg, "x".to_string(), a, key(900), &mut accs).unwrap();
    assert_eq!(reg.tweets[0].owner, Some(a));
    assert_eq!(reg.tweets[0].price, Some(1_000_000_000));
    // buyer B takes it over; A is paid through A's funds account
    let seller_a = TokenAccount { owner: a, mint: key(900), balance: accs.buyer_acc.balance };
    let mut accs2 = accounts(b, 2_000_000_000, Some(seller_a), accs.treasury.balance);
    let r = reg.purchase(&cfg, "x".to_string(), b, key(900), &mut accs2).unwrap();
    assert_eq!(accs2.seller_acc.unwrap().balance, 2_000_000_000 + 1_100_000_000);
    assert_eq!(r.fee, 100_000_000);
    assert_eq!(reg.tweets[0].owner, Some(b));
    assert_eq!(reg.tweets[0].price, Some(1_200_000_000));
}

#[test]
fn first_purchase_with_full_treasury_fails() {
    let cfg = config(FeeSink::Transfer);
    let buyer = key(1);
    let mut reg = Registry::new();
    let mut accs = accounts(buyer, 2_000_000_000, None, u64::MAX);
    let r = reg.purchase(&cfg, "x".to_string(), buyer, key(900), &mut accs);
    assert_eq!(r, Err(BonkError::NotEnoughFunds));
    assert_eq!(reg.tweets.len(), 0);
    assert_eq!(accs.buyer_acc.balance, 2_000_000_000);
    assert_eq!(accs.treasury.balance, u64::MAX);
}

#[test]
fn resale_with_full_seller_account_fails() {
    let cfg = config(FeeSink::Transfer);
    let a = key(1);
    let b = key(2);
    let mut reg = registry_with(a, 100_000);
    let seller = TokenAccount { owner: a, mint: key(900), balance: u64::MAX };
    let mut accs = accounts(b, 500_000, Some(seller), 0);
    let r = reg.purchase(&cfg, "x".to_string(), b, key(900), &mut accs);
    assert_eq!(r, Err(BonkError::NotEnoughFunds));
    assert_eq!(accs.buyer_acc.balance, 500_000);
    assert_eq!(accs.seller_acc.unwrap().balance, u64::MAX);
    assert_eq!(reg.tweets[0].price, Some(100_000));
}

#[test]
fn resale_with_full_treasury_fails() {
    let cfg = config(FeeSink::Transfer);
    let a = key(1);
    let b = key(2);
    let mut reg = registry_with(a, 100_000);
    let seller = TokenAccount { owner: a, mint: key(900), balance: 0 };
    let mut accs = accounts(b, 500_000, Some(seller), u64::MAX);
    let r = reg.purchase(&cfg, "x".to_string(), b, key(900), &mut accs);
    assert_eq!(r, Err(BonkError::NotEnoughFunds));
    assert_eq!(accs.buyer_acc.balance, 500_000);
    assert_eq!(accs.seller_acc.unwrap().balance, 0);
    assert_eq!(accs.treasury.balance, u64::MAX);
    assert_eq!(reg.tweets[0].owner, Some(a));
}
