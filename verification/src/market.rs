//! The marketplace: the listing registry and the settlement engine over one
//! shared state, every operation an all-or-nothing transaction.

use vstd::prelude::*;

use crate::custody::AssetCustody;
use crate::custody::holder_in;
use crate::custody::unit_transfer_ok;
use crate::errors::ErrorCode;
use crate::ledger::FundsLedger;
use crate::ledger::balance_in;
use crate::ledger::transfer_applied;
use crate::ledger::transfer_ok;
use crate::listing::BuyNft;
use crate::listing::CancelListing;
use crate::listing::ListNft;
use crate::listing::NftListing;
use crate::listing::Request;
use crate::store::ListingStore;
use crate::store::record_in;

verus! {

/// The whole observable state of the marketplace: the listing records, the
/// fungible balances, and the custody slot of each asset.
#[verifier::ext_equal]
pub struct MarketView {
    /// One listing record per occupied identifier.
    pub listings: Map<u64, NftListing>,
    /// The spendable balance of each account; an absent account holds zero.
    pub balances: Map<u64, u64>,
    /// The account holding each non-fungible unit.
    pub custody: Map<u64, u64>,
}

/// What creating a listing does: the new state on success, or the exact
/// error. Fails with `DuplicateListing`, changing nothing, when the
/// identifier is occupied; otherwise a fresh active record appears and
/// nothing else moves.
pub open spec fn list_outcome(m: MarketView, req: ListNft) -> Result<MarketView, ErrorCode> {
    if m.listings.contains_key(req.listing_id) {
        Err(ErrorCode::DuplicateListing)
    } else {
        Ok(
            MarketView {
                listings: m.listings.insert(
                    req.listing_id,
                    NftListing {
                        owner: req.owner,
                        asset_id: req.asset_id,
                        price: req.price,
                        is_active: true,
                    },
                ),
                ..m
            },
        )
    }
}

/// What cancelling does. Fails with `NotFound` on a missing record and with
/// `Unauthorized` when the caller is not the owner, both checked before any
/// mutation; otherwise the record is deactivated in place with no funds or
/// asset movement. Cancelling an already inactive listing as its owner is a
/// deliberate no-op success: the record is simply left inactive.
pub open spec fn cancel_outcome(m: MarketView, req: CancelListing) -> Result<
    MarketView,
    ErrorCode,
> {
    if !m.listings.contains_key(req.listing_id) {
        Err(ErrorCode::NotFound)
    } else if m.listings[req.listing_id].owner != req.caller {
        Err(ErrorCode::Unauthorized)
    } else {
        Ok(
            MarketView {
                listings: m.listings.insert(
                    req.listing_id,
                    m.listings[req.listing_id].deactivated(),
                ),
                ..m
            },
        )
    }
}

/// What buying does: one atomic settlement or one exact error with zero
/// effect. The checks, in order: the listing must exist and be active
/// (`InactiveListing`); the buyer's spendable balance must cover the price
/// (`InsufficientFunds`); the caller-supplied payee must be the stored owner
/// (`Unauthorized`); the currency move must commit — only overflow of the
/// payee remains possible (`TransferFailed`); the unit must sit with the
/// seller so the custody move, authorized by the seller's own credential,
/// can commit (`TransferFailed`). On success, and only then: the price moves
/// from buyer to owner, custody of the asset moves to the buyer, and the
/// listing becomes permanently inactive — all three or none.
pub open spec fn buy_outcome(m: MarketView, req: BuyNft) -> Result<MarketView, ErrorCode> {
    let l = m.listings[req.listing_id];
    if !m.listings.contains_key(req.listing_id) || !m.listings[req.listing_id].is_active {
        Err(ErrorCode::InactiveListing)
    } else if balance_in(m.balances, req.buyer) < l.price {
        Err(ErrorCode::InsufficientFunds)
    } else if req.seller_account != l.owner {
        Err(ErrorCode::Unauthorized)
    } else if !transfer_ok(m.balances, req.buyer, req.seller_account, l.price) {
        Err(ErrorCode::TransferFailed)
    } else if !unit_transfer_ok(m.custody, l.asset_id, req.seller_account, req.seller_account) {
        Err(ErrorCode::TransferFailed)
    } else {
        Ok(
            MarketView {
                listings: m.listings.insert(req.listing_id, l.deactivated()),
                balances: transfer_applied(m.balances, req.buyer, req.seller_account, l.price),
                custody: m.custody.insert(l.asset_id, req.buyer),
            },
        )
    }
}

/// What one request of the closed operation set does.
pub open spec fn step_outcome(m: MarketView, req: Request) -> Result<MarketView, ErrorCode> {
    match req {
        Request::List(r) => list_outcome(m, r),
        Request::Cancel(r) => cancel_outcome(m, r),
        Request::Buy(r) => buy_outcome(m, r),
    }
}

/// The state after a sequence of requests, each committed if it succeeds and
/// leaving the state untouched if it is rejected.
pub open spec fn run_requests(m: MarketView, reqs: Seq<Request>) -> MarketView
    decreases reqs.len(),
{
    if reqs.len() == 0 {
        m
    } else {
        let next = match step_outcome(m, reqs.first()) {
            Ok(m1) => m1,
            Err(_) => m,
        };
        run_requests(next, reqs.drop_first())
    }
}

/// The marketplace state: the listing registry (sole writer of `is_active`),
/// the funds ledger and the asset-custody table. Every public operation
/// either returns `Ok` having committed its whole effect or returns the
/// exact error having changed nothing, as pinned down by `list_outcome`,
/// `cancel_outcome` and `buy_outcome`.
pub struct Market {
    store: ListingStore,
    funds: FundsLedger,
    custody: AssetCustody,
}

impl View for Market {
    type V = MarketView;

    closed spec fn view(&self) -> MarketView {
        MarketView { listings: self.store@, balances: self.funds@, custody: self.custody@ }
    }
}

impl Market {
    /// An empty marketplace: no listings, no balances, no custody.
    pub fn new() -> (m: Market)
        ensures
            m@.listings == Map::<u64, NftListing>::empty(),
            m@.balances == Map::<u64, u64>::empty(),
            m@.custody == Map::<u64, u64>::empty(),
    {
        Market { store: ListingStore::new(), funds: FundsLedger::new(), custody: AssetCustody::new() }
    }

    /// The record under `listing_id`, if any.
    pub fn get_listing(&self, listing_id: u64) -> (r: Option<NftListing>)
        ensures
            r == record_in(self@.listings, listing_id),
    {
        self.store.get_listing(listing_id)
    }

    /// The spendable balance of `account`.
    pub fn balance_of(&self, account: u64) -> (r: u64)
        ensures
            r == balance_in(self@.balances, account),
    {
        self.funds.balance_of(account)
    }

    /// The account holding `asset_id`, if any.
    pub fn asset_holder(&self, asset_id: u64) -> (r: Option<u64>)
        ensures
            r == holder_in(self@.custody, asset_id),
    {
        self.custody.holder_of(asset_id)
    }

    /// Set the balance of `account`: account bootstrapping, outside the
    /// settlement protocol.
    pub fn fund_account(&mut self, account: u64, amount: u64)
        ensures
            final(self)@ == (MarketView {
                balances: old(self)@.balances.insert(account, amount),
                ..old(self)@
            }),
    {
        self.funds.set_balance(account, amount);
    }

    /// Place `asset_id` in the custody of `holder`: minting and custody
    /// bootstrapping, outside the settlement protocol.
    pub fn register_asset(&mut self, asset_id: u64, holder: u64)
        ensures
            final(self)@ == (MarketView {
                custody: old(self)@.custody.insert(asset_id, holder),
                ..old(self)@
            }),
    {
        self.custody.set_holder(asset_id, holder);
    }

    /// Check a creation request against the current state without mutating
    /// anything: the exact error `list_nft` would return, or `Ok` if it
    /// would commit.
    pub fn validate_list(&self, req: &ListNft) -> (r: Result<(), ErrorCode>)
        ensures
            r is Ok <==> list_outcome(self@, *req) is Ok,
            r is Err ==> list_outcome(self@, *req) == Err::<MarketView, ErrorCode>(
                r->Err_0,
            ),
    {
        if self.store.contains(req.listing_id) {
            Err(ErrorCode::DuplicateListing)
        } else {
            Ok(())
        }
    }

    /// Create a new active listing owned by `req.owner`. All-or-nothing:
    /// exactly `list_outcome` of the prior state.
    pub fn list_nft(&mut self, req: &ListNft) -> (r: Result<(), ErrorCode>)
        ensures
            match list_outcome(old(self)@, *req) {
                Ok(m1) => r == Ok::<(), ErrorCode>(()) && final(self)@ == m1,
                Err(e) => r == Err::<(), ErrorCode>(e) && final(self)@ == old(self)@,
            },
    {
        match self.store.create_listing(req.listing_id, req.owner, req.asset_id, req.price) {
            Ok(()) => {
                proof {
                    assert(self@ =~= list_outcome(old(self)@, *req)->Ok_0);
                }
                Ok(())
            },
            Err(e) => {
                proof {
                    assert(self@ =~= old(self)@);
                }
                Err(e)
            },
        }
    }

    /// Check a cancellation request without mutating anything: the exact
    /// error `cancel_listing` would return, or `Ok` if it would commit.
    pub fn validate_cancel(&self, req: &CancelListing) -> (r: Result<(), ErrorCode>)
        ensures
            r is Ok <==> cancel_outcome(self@, *req) is Ok,
            r is Err ==> cancel_outcome(self@, *req) == Err::<MarketView, ErrorCode>(
                r->Err_0,
            ),
    {
        match self.store.get_listing(req.listing_id) {
            None => Err(ErrorCode::NotFound),
            Some(l) => {
                if l.owner != req.caller {
                    Err(ErrorCode::Unauthorized)
                } else {
                    Ok(())
                }
            },
        }
    }

    /// Withdraw a listing: only its owner may, ownership checked before any
    /// mutation, and no funds or assets move. Cancelling an already inactive
    /// listing as its owner succeeds and changes nothing (the record is
    /// already terminal). All-or-nothing: exactly `cancel_outcome` of the
    /// prior state.
    pub fn cancel_listing(&mut self, req: &CancelListing) -> (r: Result<(), ErrorCode>)
        ensures
            match cancel_outcome(old(self)@, *req) {
                Ok(m1) => r == Ok::<(), ErrorCode>(()) && final(self)@ == m1,
                Err(e) => r == Err::<(), ErrorCode>(e) && final(self)@ == old(self)@,
            },
    {
        match self.validate_cancel(req) {
            Err(e) => Err(e),
            Ok(()) => {
                self.store.deactivate(req.listing_id);
                proof {
                    assert(self@ =~= cancel_outcome(old(self)@, *req)->Ok_0);
                }
                Ok(())
            },
        }
    }

    /// Check a purchase request without mutating anything: the exact error
    /// `buy_nft` would return, or `Ok` if the settlement would commit.
    pub fn validate_buy(&self, req: &BuyNft) -> (r: Result<(), ErrorCode>)
        ensures
            r is Ok <==> buy_outcome(self@, *req) is Ok,
            r is Err ==> buy_outcome(self@, *req) == Err::<MarketView, ErrorCode>(
                r->Err_0,
            ),
    {
        let l = match self.store.get_listing(req.listing_id) {
            None => {
                return Err(ErrorCode::InactiveListing);
            },
            Some(l) => l,
        };
        if !l.is_active {
            return Err(ErrorCode::InactiveListing);
        }
        let buyer_balance = self.funds.balance_of(req.buyer);
        if buyer_balance < l.price {
            return Err(ErrorCode::InsufficientFunds);
        }
        if req.seller_account != l.owner {
            return Err(ErrorCode::Unauthorized);
        }
        if req.buyer != req.seller_account {
            let seller_balance = self.funds.balance_of(req.seller_account);
            if seller_balance > u64::MAX - l.price {
                return Err(ErrorCode::TransferFailed);
            }
        }
        match self.custody.holder_of(l.asset_id) {
            Some(h) => {
                if h != req.seller_account {
                    return Err(ErrorCode::TransferFailed);
                }
            },
            None => {
                return Err(ErrorCode::TransferFailed);
            },
        }
        Ok(())
    }

    /// Apply one request of the closed operation set: the single dispatch
    /// point for callers that drive the marketplace by tagged requests.
    /// All-or-nothing: exactly `step_outcome` of the prior state.
    pub fn apply_request(&mut self, req: &Request) -> (r: Result<(), ErrorCode>)
        ensures
            match step_outcome(old(self)@, *req) {
                Ok(m1) => r == Ok::<(), ErrorCode>(()) && final(self)@ == m1,
                Err(e) => r == Err::<(), ErrorCode>(e) && final(self)@ == old(self)@,
            },
    {
        match req {
            Request::List(r) => self.list_nft(r),
            Request::Cancel(r) => self.cancel_listing(r),
            Request::Buy(r) => self.buy_nft(r),
        }
    }

    /// Buy a listed asset: the critical path. The request is validated
    /// first, with no side effect on any failure; only then does the
    /// settlement commit as one unit — the price moves from the buyer to the
    /// stored owner, custody of the asset moves to the buyer, and the
    /// listing is deactivated, never to be reactivated. All-or-nothing:
    /// exactly `buy_outcome` of the prior state.
    pub fn buy_nft(&mut self, req: &BuyNft) -> (r: Result<(), ErrorCode>)
        ensures
            match buy_outcome(old(self)@, *req) {
                Ok(m1) => r == Ok::<(), ErrorCode>(()) && final(self)@ == m1,
                Err(e) => r == Err::<(), ErrorCode>(e) && final(self)@ == old(self)@,
            },
    {
        match self.validate_buy(req) {
            Err(e) => {
                return Err(e);
            },
            Ok(()) => {},
        }
        let l = self.store.get_listing(req.listing_id).unwrap();
        let funds_moved = self.funds.transfer_funds(req.buyer, req.seller_account, l.price);
        proof {
            assert(funds_moved is Ok);
        }
        let unit_moved = self.custody.transfer_unit(
            l.asset_id,
            req.seller_account,
            req.buyer,
            req.seller_account,
        );
        proof {
            assert(unit_moved is Ok);
        }
        self.store.deactivate(req.listing_id);
        proof {
            assert(self@ =~= buy_outcome(old(self)@, *req)->Ok_0);
        }
        Ok(())
    }
}

} // verus!
