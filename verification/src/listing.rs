//! The listing record and the closed set of request variants.

use vstd::prelude::*;

verus! {

/// The sole persistent entity: one fixed-price listing of one asset.
///
/// `owner`, `asset_id` and `price` are set once at creation and never edited;
/// changing the price requires cancelling and re-listing as a new record.
/// `is_active` is `true` from creation until cancellation or a successful
/// purchase, and `false` permanently afterward: `true -> false` is the only
/// legal transition.
#[derive(Clone, Copy, Debug, PartialEq, Eq, Structural)]
pub struct NftListing {
    /// The principal entitled to cancel the listing and receive proceeds.
    pub owner: u64,
    /// The non-fungible unit being sold.
    pub asset_id: u64,
    /// The amount of native currency required to purchase. Zero is a valid
    /// price: a free listing is allowed.
    pub price: u64,
    /// Whether the listing can still be bought or cancelled into a sale.
    pub is_active: bool,
}

impl NftListing {
    /// A freshly created, active listing.
    pub fn new(owner: u64, asset_id: u64, price: u64) -> (l: NftListing)
        ensures
            l == (NftListing { owner, asset_id, price, is_active: true }),
    {
        NftListing { owner, asset_id, price, is_active: true }
    }

    /// The same record with `is_active` cleared: the one legal transition.
    pub open spec fn deactivated(self) -> NftListing {
        NftListing { is_active: false, ..self }
    }
}

/// Request to create a new listing. The caller becomes the owner.
#[derive(Clone, Copy, Debug, PartialEq, Eq, Structural)]
pub struct ListNft {
    /// The identifier the new record will be keyed by; must be unoccupied.
    pub listing_id: u64,
    /// The authenticated caller, recorded as the listing's owner.
    pub owner: u64,
    /// The asset being offered for sale.
    pub asset_id: u64,
    /// The fixed purchase price.
    pub price: u64,
}

/// Request to withdraw a listing before sale. Only the owner may cancel.
#[derive(Clone, Copy, Debug, PartialEq, Eq, Structural)]
pub struct CancelListing {
    /// The listing to cancel.
    pub listing_id: u64,
    /// The authenticated caller; must equal the listing's owner.
    pub caller: u64,
}

/// Request to purchase a listed asset.
#[derive(Clone, Copy, Debug, PartialEq, Eq, Structural)]
pub struct BuyNft {
    /// The listing to buy.
    pub listing_id: u64,
    /// The buyer: the payment source and the asset destination.
    pub buyer: u64,
    /// The caller-supplied payee. It is verified against the stored owner,
    /// so a caller cannot substitute an arbitrary payment destination.
    pub seller_account: u64,
}

/// One operation against the marketplace: the closed set of mutations.
#[derive(Clone, Copy, Debug, PartialEq, Eq, Structural)]
pub enum Request {
    /// Create a listing.
    List(ListNft),
    /// Cancel a listing.
    Cancel(CancelListing),
    /// Buy a listed asset.
    Buy(BuyNft),
}

} // verus!
