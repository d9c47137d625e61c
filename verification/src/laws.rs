//! The marketplace's guarantees, each stated and proved over the pure
//! transition functions of `crate::market`. The executable operations are
//! pinned to those transitions by their `ensures`, so everything proved here
//! holds of the running library: a rejected operation returns exactly the
//! stated error and the state it leaves behind is the state it found.

use vstd::prelude::*;

use crate::custody::holder_in;
use crate::errors::ErrorCode;
use crate::ledger::balance_in;
use crate::listing::BuyNft;
use crate::listing::CancelListing;
use crate::listing::ListNft;
use crate::listing::NftListing;
use crate::listing::Request;
use crate::market::MarketView;
use crate::market::buy_outcome;
use crate::market::cancel_outcome;
use crate::market::list_outcome;
use crate::market::run_requests;
use crate::market::step_outcome;
use crate::store::record_in;

verus! {

/// Uniqueness of listing identifiers: once a creation has committed, a
/// second creation under the same identifier is rejected with
/// `DuplicateListing`, and the first record keeps exactly the terms it was
/// created with.
pub proof fn lemma_duplicate_listing_rejected(m: MarketView, first: ListNft, second: ListNft)
    requires
        second.listing_id == first.listing_id,
        list_outcome(m, first) is Ok,
    ensures
        ({
            let m1 = list_outcome(m, first)->Ok_0;
            &&& list_outcome(m1, second) == Err::<MarketView, ErrorCode>(
                ErrorCode::DuplicateListing,
            )
            &&& m1.listings[first.listing_id] == (NftListing {
                owner: first.owner,
                asset_id: first.asset_id,
                price: first.price,
                is_active: true,
            })
        }),
{
}

/// Cancel authorization: a cancel attempt on an existing listing by anyone
/// but its owner is rejected with `Unauthorized` — and a rejected operation
/// changes nothing, so the listing stays active if it was active.
pub proof fn lemma_cancel_requires_owner(m: MarketView, req: CancelListing)
    requires
        m.listings.contains_key(req.listing_id),
        req.caller != m.listings[req.listing_id].owner,
    ensures
        cancel_outcome(m, req) == Err::<MarketView, ErrorCode>(ErrorCode::Unauthorized),
{
}

/// Immutability of terms, and monotonicity of `is_active`: a record, once
/// created, is never deleted, its owner, asset and price are never edited by
/// any request — committed or rejected — and the only state change it can
/// ever undergo is `is_active` going from `true` to `false`.
pub proof fn lemma_listing_terms_immutable(m: MarketView, req: Request, listing_id: u64)
    requires
        m.listings.contains_key(listing_id),
    ensures
        ({
            let next = match step_outcome(m, req) {
                Ok(m1) => m1,
                Err(_) => m,
            };
            &&& next.listings.contains_key(listing_id)
            &&& next.listings[listing_id].owner == m.listings[listing_id].owner
            &&& next.listings[listing_id].asset_id == m.listings[listing_id].asset_id
            &&& next.listings[listing_id].price == m.listings[listing_id].price
            &&& (next.listings[listing_id].is_active ==> m.listings[listing_id].is_active)
        }),
{
}

/// One step of the terminal-state law: an inactive listing record survives
/// any single request — committed or rejected — completely unchanged. In
/// particular `is_active` never returns to `true`.
pub proof fn lemma_terminal_state_step(m: MarketView, req: Request, listing_id: u64)
    requires
        m.listings.contains_key(listing_id),
        !m.listings[listing_id].is_active,
    ensures
        ({
            let next = match step_outcome(m, req) {
                Ok(m1) => m1,
                Err(_) => m,
            };
            &&& next.listings.contains_key(listing_id)
            &&& next.listings[listing_id] == m.listings[listing_id]
        }),
{
}

/// The terminal-state law: once a listing is inactive — sold or cancelled,
/// by any path — no sequence of further requests ever changes its record,
/// so `is_active` stays `false` forever.
pub proof fn lemma_terminal_state(m: MarketView, reqs: Seq<Request>, listing_id: u64)
    requires
        m.listings.contains_key(listing_id),
        !m.listings[listing_id].is_active,
    ensures
        run_requests(m, reqs).listings.contains_key(listing_id),
        run_requests(m, reqs).listings[listing_id] == m.listings[listing_id],
    decreases reqs.len(),
{
    if reqs.len() > 0 {
        let next = match step_outcome(m, reqs.first()) {
            Ok(m1) => m1,
            Err(_) => m,
        };
        lemma_terminal_state_step(m, reqs.first(), listing_id);
        lemma_terminal_state(next, reqs.drop_first(), listing_id);
    }
}

/// Atomic settlement: whenever a buy commits, its whole effect is exact —
/// the buyer pays the listed price to the stored owner, custody of the
/// listed asset moves to the buyer, the listing becomes inactive, and no
/// other balance, custody slot or listing record moves. (The "or none" half
/// is the rejection case: `buy_nft` returns every error with the state
/// unchanged.)
pub proof fn lemma_atomic_settlement(m: MarketView, req: BuyNft)
    requires
        buy_outcome(m, req) is Ok,
    ensures
        ({
            let l = m.listings[req.listing_id];
            let m1 = buy_outcome(m, req)->Ok_0;
            &&& m.listings.contains_key(req.listing_id) && l.is_active
            &&& req.seller_account == l.owner
            &&& balance_in(m.balances, req.buyer) >= l.price
            &&& (req.buyer != l.owner ==> balance_in(m1.balances, req.buyer) == balance_in(
                m.balances,
                req.buyer,
            ) - l.price)
            &&& (req.buyer != l.owner ==> balance_in(m1.balances, l.owner) == balance_in(
                m.balances,
                l.owner,
            ) + l.price)
            &&& (req.buyer == l.owner ==> m1.balances == m.balances)
            &&& holder_in(m1.custody, l.asset_id) == Some(req.buyer)
            &&& m1.listings.contains_key(req.listing_id)
            &&& m1.listings[req.listing_id] == l.deactivated()
            &&& !m1.listings[req.listing_id].is_active
            &&& (forall|a: u64|
                a != req.buyer && a != l.owner ==> #[trigger] balance_in(m1.balances, a)
                    == balance_in(m.balances, a))
            &&& (forall|x: u64|
                x != l.asset_id ==> #[trigger] holder_in(m1.custody, x) == holder_in(m.custody, x))
            &&& (forall|i: u64|
                i != req.listing_id ==> #[trigger] record_in(m1.listings, i) == record_in(
                    m.listings,
                    i,
                ))
        }),
{
}

/// Insufficient funds: a buy against an existing active listing by a buyer
/// whose spendable balance is below the price is rejected with
/// `InsufficientFunds` — and a rejected operation changes nothing, so the
/// listing stays active and no balance or custody slot moves.
pub proof fn lemma_insufficient_funds(m: MarketView, req: BuyNft)
    requires
        m.listings.contains_key(req.listing_id),
        m.listings[req.listing_id].is_active,
        balance_in(m.balances, req.buyer) < m.listings[req.listing_id].price,
    ensures
        buy_outcome(m, req) == Err::<MarketView, ErrorCode>(ErrorCode::InsufficientFunds),
{
}

/// No double sale: of two buys against the same listing, committed one after
/// the other — the serialization every racing pair receives from the store's
/// atomic commit — at most one succeeds: after the first commits, the second
/// is rejected with `InactiveListing`, with zero effect.
pub proof fn lemma_no_double_sale(m: MarketView, first: BuyNft, second: BuyNft)
    requires
        second.listing_id == first.listing_id,
        buy_outcome(m, first) is Ok,
    ensures
        buy_outcome(buy_outcome(m, first)->Ok_0, second) == Err::<MarketView, ErrorCode>(
            ErrorCode::InactiveListing,
        ),
{
}

} // verus!
