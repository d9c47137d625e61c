//! The listing store: the durable, atomically committed registry of
//! listing records, with a uniqueness guarantee on creation.

use std::collections::HashMap;
use vstd::prelude::*;

use crate::errors::ErrorCode;
use crate::listing::NftListing;

verus! {

broadcast use vstd::std_specs::hash::group_hash_axioms;

/// The record stored under `listing_id`, or `None` if the identifier is
/// unoccupied.
pub open spec fn record_in(m: Map<u64, NftListing>, listing_id: u64) -> Option<NftListing> {
    if m.contains_key(listing_id) {
        Some(m[listing_id])
    } else {
        None
    }
}

/// One record per listing identifier. The store is the sole writer of
/// `is_active`: records enter active, are deactivated in place, and are
/// never deleted or overwritten, so a sold or cancelled listing persists as
/// a permanent historical entry.
pub struct ListingStore {
    records: HashMap<u64, NftListing>,
}

impl View for ListingStore {
    type V = Map<u64, NftListing>;

    closed spec fn view(&self) -> Map<u64, NftListing> {
        self.records@
    }
}

impl ListingStore {
    /// An empty store.
    pub fn new() -> (s: ListingStore)
        ensures
            s@ == Map::<u64, NftListing>::empty(),
    {
        ListingStore { records: HashMap::new() }
    }

    /// Whether a record exists under `listing_id`.
    pub fn contains(&self, listing_id: u64) -> (r: bool)
        ensures
            r == self@.contains_key(listing_id),
    {
        self.records.contains_key(&listing_id)
    }

    /// The record under `listing_id`, if any.
    pub fn get_listing(&self, listing_id: u64) -> (r: Option<NftListing>)
        ensures
            r == record_in(self@, listing_id),
    {
        match self.records.get(&listing_id) {
            Some(l) => Some(*l),
            None => None,
        }
    }

    /// Create and persist a new active listing under `listing_id`. Creation
    /// fails with `DuplicateListing`, changing nothing, if the identifier is
    /// already occupied: an existing record's terms are never overwritten.
    pub fn create_listing(&mut self, listing_id: u64, owner: u64, asset_id: u64, price: u64) -> (r:
        Result<(), ErrorCode>)
        ensures
            old(self)@.contains_key(listing_id) ==> {
                &&& r == Err::<(), ErrorCode>(ErrorCode::DuplicateListing)
                &&& final(self)@ == old(self)@
            },
            !old(self)@.contains_key(listing_id) ==> {
                &&& r == Ok::<(), ErrorCode>(())
                &&& final(self)@ == old(self)@.insert(
                    listing_id,
                    NftListing { owner, asset_id, price, is_active: true },
                )
            },
    {
        if self.records.contains_key(&listing_id) {
            return Err(ErrorCode::DuplicateListing);
        }
        self.records.insert(listing_id, NftListing::new(owner, asset_id, price));
        Ok(())
    }

    /// Clear `is_active` on an existing record, in place. This is the one
    /// mutation of a stored record, and `true -> false` the one transition.
    pub(crate) fn deactivate(&mut self, listing_id: u64)
        requires
            old(self)@.contains_key(listing_id),
        ensures
            final(self)@ == old(self)@.insert(listing_id, old(self)@[listing_id].deactivated()),
    {
        let record = *self.records.get(&listing_id).unwrap();
        self.records.insert(listing_id, NftListing { is_active: false, ..record });
    }
}

} // verus!
