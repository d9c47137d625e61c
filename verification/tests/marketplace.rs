use nft_marketplace::custody::AssetCustody;
use nft_marketplace::errors::ErrorCode;
use nft_marketplace::ledger::FundsLedger;
use nft_marketplace::listing::{BuyNft, CancelListing, ListNft, NftListing, Request};
use nft_marketplace::market::Market;
use nft_marketplace::store::ListingStore;

fn market_with_listing() -> Market {
    // Seller 10 owns asset 7, listed under identifier 1 for 100.
    let mut market = Market::new();
    market.register_asset(7, 10);
    let r = market.list_nft(&ListNft {
        listing_id: 1,
        owner: 10,
        asset_id: 7,
        price: 100,
    });
    assert_eq!(r, Ok(()));
    market
}

#[test]
fn list_creates_active_record() {
    let market = market_with_listing();
    let l = market.get_listing(1).unwrap();
    assert_eq!(
        l,
        NftListing {
            owner: 10,
            asset_id: 7,
            price: 100,
            is_active: true,
        }
    );
    assert_eq!(market.get_listing(2), None);
}

#[test]
fn duplicate_listing_rejected() {
    let mut market = market_with_listing();
    let r = market.list_nft(&ListNft {
        listing_id: 1,
        owner: 11,
        asset_id: 8,
        price: 5,
    });
    assert_eq!(r, Err(ErrorCode::DuplicateListing));
    // The first record's terms are untouched.
    let l = market.get_listing(1).unwrap();
    assert_eq!(l.owner, 10);
    assert_eq!(l.asset_id, 7);
    assert_eq!(l.price, 100);
    assert!(l.is_active);
}

#[test]
fn cancel_by_owner_deactivates() {
    let mut market = market_with_listing();
    let r = market.cancel_listing(&CancelListing {
        listing_id: 1,
        caller: 10,
    });
    assert_eq!(r, Ok(()));
    assert!(!market.get_listing(1).unwrap().is_active);
    // No funds or asset moved.
    assert_eq!(market.asset_holder(7), Some(10));
    assert_eq!(market.balance_of(10), 0);
}

#[test]
fn cancel_by_non_owner_rejected() {
    let mut market = market_with_listing();
    let r = market.cancel_listing(&CancelListing {
        listing_id: 1,
        caller: 11,
    });
    assert_eq!(r, Err(ErrorCode::Unauthorized));
    assert!(market.get_listing(1).unwrap().is_active);
}

#[test]
fn cancel_missing_listing_rejected() {
    let mut market = market_with_listing();
    let r = market.cancel_listing(&CancelListing {
        listing_id: 99,
        caller: 10,
    });
    assert_eq!(r, Err(ErrorCode::NotFound));
}

#[test]
fn cancel_already_inactive_is_noop() {
    let mut market = market_with_listing();
    let req = CancelListing {
        listing_id: 1,
        caller: 10,
    };
    assert_eq!(market.cancel_listing(&req), Ok(()));
    // Documented choice: a second cancel by the owner succeeds and changes
    // nothing; the record stays inactive.
    assert_eq!(market.cancel_listing(&req), Ok(()));
    assert!(!market.get_listing(1).unwrap().is_active);
}

#[test]
fn end_to_end_sale() {
    // list(owner=10, asset=7, price=100), buyer 20 holds 150.
    let mut market = market_with_listing();
    market.fund_account(20, 150);
    let r = market.buy_nft(&BuyNft {
        listing_id: 1,
        buyer: 20,
        seller_account: 10,
    });
    assert_eq!(r, Ok(()));
    // All four effects, exactly.
    assert_eq!(market.balance_of(20), 50);
    assert_eq!(market.balance_of(10), 100);
    assert_eq!(market.asset_holder(7), Some(20));
    assert!(!market.get_listing(1).unwrap().is_active);
    // A later buyer is turned away: the terminal state is permanent.
    market.fund_account(30, 500);
    let again = market.buy_nft(&BuyNft {
        listing_id: 1,
        buyer: 30,
        seller_account: 10,
    });
    assert_eq!(again, Err(ErrorCode::InactiveListing));
    assert_eq!(market.balance_of(30), 500);
    assert_eq!(market.asset_holder(7), Some(20));
}

#[test]
fn insufficient_funds_rejected_without_effect() {
    let mut market = market_with_listing();
    market.fund_account(20, 50);
    let r = market.buy_nft(&BuyNft {
        listing_id: 1,
        buyer: 20,
        seller_account: 10,
    });
    assert_eq!(r, Err(ErrorCode::InsufficientFunds));
    assert!(market.get_listing(1).unwrap().is_active);
    assert_eq!(market.balance_of(20), 50);
    assert_eq!(market.balance_of(10), 0);
    assert_eq!(market.asset_holder(7), Some(10));
}

#[test]
fn double_sale_impossible() {
    let mut market = market_with_listing();
    market.fund_account(20, 100);
    market.fund_account(30, 100);
    let first = market.buy_nft(&BuyNft {
        listing_id: 1,
        buyer: 20,
        seller_account: 10,
    });
    let second = market.buy_nft(&BuyNft {
        listing_id: 1,
        buyer: 30,
        seller_account: 10,
    });
    // Exactly one commits; the loser sees InactiveListing and spends nothing.
    assert_eq!(first, Ok(()));
    assert_eq!(second, Err(ErrorCode::InactiveListing));
    assert_eq!(market.balance_of(30), 100);
    assert_eq!(market.asset_holder(7), Some(20));
    assert_eq!(market.balance_of(10), 100);
}

#[test]
fn buy_cancelled_listing_rejected() {
    let mut market = market_with_listing();
    market.fund_account(20, 200);
    market
        .cancel_listing(&CancelListing {
            listing_id: 1,
            caller: 10,
        })
        .unwrap();
    let r = market.buy_nft(&BuyNft {
        listing_id: 1,
        buyer: 20,
        seller_account: 10,
    });
    assert_eq!(r, Err(ErrorCode::InactiveListing));
    assert_eq!(market.balance_of(20), 200);
}

#[test]
fn buy_missing_listing_rejected() {
    let mut market = Market::new();
    market.fund_account(20, 200);
    let r = market.buy_nft(&BuyNft {
        listing_id: 5,
        buyer: 20,
        seller_account: 10,
    });
    assert_eq!(r, Err(ErrorCode::InactiveListing));
}

#[test]
fn buy_with_wrong_payee_rejected() {
    // A caller cannot substitute an arbitrary payment destination: the
    // supplied seller account must be the stored owner.
    let mut market = market_with_listing();
    market.fund_account(20, 200);
    let r = market.buy_nft(&BuyNft {
        listing_id: 1,
        buyer: 20,
        seller_account: 11,
    });
    assert_eq!(r, Err(ErrorCode::Unauthorized));
    assert!(market.get_listing(1).unwrap().is_active);
    assert_eq!(market.balance_of(20), 200);
    assert_eq!(market.balance_of(11), 0);
}

#[test]
fn buy_fails_when_asset_left_custody() {
    // The unit no longer sits with the seller: the custody move is rejected
    // and the whole settlement aborts with no effect.
    let mut market = Market::new();
    market.register_asset(7, 40);
    market
        .list_nft(&ListNft {
            listing_id: 1,
            owner: 10,
            asset_id: 7,
            price: 100,
        })
        .unwrap();
    market.fund_account(20, 200);
    let r = market.buy_nft(&BuyNft {
        listing_id: 1,
        buyer: 20,
        seller_account: 10,
    });
    assert_eq!(r, Err(ErrorCode::TransferFailed));
    assert!(market.get_listing(1).unwrap().is_active);
    assert_eq!(market.balance_of(20), 200);
    assert_eq!(market.balance_of(10), 0);
    assert_eq!(market.asset_holder(7), Some(40));
}

#[test]
fn buy_fails_on_payee_overflow() {
    let mut market = market_with_listing();
    market.fund_account(20, 100);
    market.fund_account(10, u64::MAX);
    let r = market.buy_nft(&BuyNft {
        listing_id: 1,
        buyer: 20,
        seller_account: 10,
    });
    assert_eq!(r, Err(ErrorCode::TransferFailed));
    assert!(market.get_listing(1).unwrap().is_active);
    assert_eq!(market.balance_of(20), 100);
    assert_eq!(market.balance_of(10), u64::MAX);
    assert_eq!(market.asset_holder(7), Some(10));
}

#[test]
fn free_listing_can_be_bought_by_unfunded_buyer() {
    // Zero is a valid price, and an account with no ledger entry holds zero.
    let mut market = Market::new();
    market.register_asset(9, 10);
    market
        .list_nft(&ListNft {
            listing_id: 2,
            owner: 10,
            asset_id: 9,
            price: 0,
        })
        .unwrap();
    let r = market.buy_nft(&BuyNft {
        listing_id: 2,
        buyer: 20,
        seller_account: 10,
    });
    assert_eq!(r, Ok(()));
    assert_eq!(market.asset_holder(9), Some(20));
    assert_eq!(market.balance_of(20), 0);
    assert_eq!(market.balance_of(10), 0);
    assert!(!market.get_listing(2).unwrap().is_active);
}

#[test]
fn owner_buying_own_listing_moves_nothing_but_custody_flag() {
    // The owner may buy their own listing: the self-payment leaves the
    // balance untouched and the listing still terminates.
    let mut market = market_with_listing();
    market.fund_account(10, 100);
    let r = market.buy_nft(&BuyNft {
        listing_id: 1,
        buyer: 10,
        seller_account: 10,
    });
    assert_eq!(r, Ok(()));
    assert_eq!(market.balance_of(10), 100);
    assert_eq!(market.asset_holder(7), Some(10));
    assert!(!market.get_listing(1).unwrap().is_active);
}

#[test]
fn validation_is_pure_and_matches_execution() {
    let mut market = market_with_listing();
    market.fund_account(20, 50);
    let req = BuyNft {
        listing_id: 1,
        buyer: 20,
        seller_account: 10,
    };
    assert_eq!(market.validate_buy(&req), Err(ErrorCode::InsufficientFunds));
    // Validation touched nothing.
    assert!(market.get_listing(1).unwrap().is_active);
    assert_eq!(market.balance_of(20), 50);
    market.fund_account(20, 100);
    assert_eq!(market.validate_buy(&req), Ok(()));
    assert_eq!(market.buy_nft(&req), Ok(()));
    assert_eq!(
        market.validate_cancel(&CancelListing {
            listing_id: 3,
            caller: 10
        }),
        Err(ErrorCode::NotFound)
    );
    assert_eq!(
        market.validate_list(&ListNft {
            listing_id: 1,
            owner: 10,
            asset_id: 7,
            price: 1
        }),
        Err(ErrorCode::DuplicateListing)
    );
}

#[test]
fn requests_drive_the_same_lifecycle() {
    let mut market = Market::new();
    market.register_asset(7, 10);
    market.fund_account(20, 150);
    let ops = [
        Request::List(ListNft {
            listing_id: 1,
            owner: 10,
            asset_id: 7,
            price: 100,
        }),
        Request::Buy(BuyNft {
            listing_id: 1,
            buyer: 20,
            seller_account: 10,
        }),
    ];
    for op in &ops {
        assert_eq!(market.apply_request(op), Ok(()));
    }
    // Once terminal, every further mutation attempt is rejected.
    assert_eq!(
        market.apply_request(&Request::Cancel(CancelListing {
            listing_id: 1,
            caller: 11
        })),
        Err(ErrorCode::Unauthorized)
    );
    assert_eq!(
        market.apply_request(&Request::Buy(BuyNft {
            listing_id: 1,
            buyer: 20,
            seller_account: 10
        })),
        Err(ErrorCode::InactiveListing)
    );
    assert_eq!(market.balance_of(20), 50);
    assert_eq!(market.asset_holder(7), Some(20));
    assert!(!market.get_listing(1).unwrap().is_active);
}

#[test]
fn funds_ledger_transfers_atomically() {
    let mut ledger = FundsLedger::new();
    assert_eq!(ledger.balance_of(1), 0);
    ledger.set_balance(1, 70);
    ledger.set_balance(2, 5);
    assert_eq!(ledger.transfer_funds(1, 2, 30), Ok(()));
    assert_eq!(ledger.balance_of(1), 40);
    assert_eq!(ledger.balance_of(2), 35);
    // Underfunded: rejected with no change.
    assert_eq!(
        ledger.transfer_funds(1, 2, 41),
        Err(ErrorCode::TransferFailed)
    );
    assert_eq!(ledger.balance_of(1), 40);
    assert_eq!(ledger.balance_of(2), 35);
    // Overflow of the destination: rejected with no change.
    ledger.set_balance(3, u64::MAX);
    assert_eq!(
        ledger.transfer_funds(1, 3, 1),
        Err(ErrorCode::TransferFailed)
    );
    assert_eq!(ledger.balance_of(1), 40);
    assert_eq!(ledger.balance_of(3), u64::MAX);
    // Self-transfer is a committed no-op.
    assert_eq!(ledger.transfer_funds(1, 1, 40), Ok(()));
    assert_eq!(ledger.balance_of(1), 40);
}

#[test]
fn custody_moves_only_with_holder_authority() {
    let mut custody = AssetCustody::new();
    assert_eq!(custody.holder_of(7), None);
    custody.set_holder(7, 10);
    // The recipient's credential cannot authorize the move.
    assert_eq!(
        custody.transfer_unit(7, 10, 20, 20),
        Err(ErrorCode::TransferFailed)
    );
    assert_eq!(custody.holder_of(7), Some(10));
    // Nor can the true holder move a unit from the wrong slot.
    assert_eq!(
        custody.transfer_unit(7, 20, 30, 20),
        Err(ErrorCode::TransferFailed)
    );
    assert_eq!(custody.holder_of(7), Some(10));
    assert_eq!(custody.transfer_unit(7, 10, 20, 10), Ok(()));
    assert_eq!(custody.holder_of(7), Some(20));
}

#[test]
fn store_keeps_first_record_on_collision() {
    let mut store = ListingStore::new();
    assert!(!store.contains(1));
    assert_eq!(store.create_listing(1, 10, 7, 100), Ok(()));
    assert!(store.contains(1));
    assert_eq!(
        store.create_listing(1, 11, 8, 5),
        Err(ErrorCode::DuplicateListing)
    );
    let l = store.get_listing(1).unwrap();
    assert_eq!(l.owner, 10);
    assert_eq!(l.asset_id, 7);
    assert_eq!(l.price, 100);
    assert!(l.is_active);
}

#[test]
fn listing_constructor_starts_active() {
    let l = NftListing::new(10, 7, 100);
    assert!(l.is_active);
    assert_eq!(l.owner, 10);
    assert_eq!(l.asset_id, 7);
    assert_eq!(l.price, 100);
}

#[test]
fn error_messages_are_distinct() {
    let all = [
        ErrorCode::DuplicateListing,
        ErrorCode::NotFound,
        ErrorCode::Unauthorized,
        ErrorCode::InactiveListing,
        ErrorCode::InsufficientFunds,
        ErrorCode::TransferFailed,
    ];
    for i in 0..all.len() {
        assert!(!all[i].message().is_empty());
        for j in 0..all.len() {
            if i != j {
                assert_ne!(all[i].message(), all[j].message());
            }
        }
    }
}
