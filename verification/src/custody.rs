//! Asset custody: which account holds each non-fungible unit.

use std::collections::HashMap;
use vstd::prelude::*;

use crate::errors::ErrorCode;

verus! {

broadcast use vstd::std_specs::hash::group_hash_axioms;

/// The holder of an asset, or `None` if the asset is not in custody.
pub open spec fn holder_in(m: Map<u64, u64>, asset_id: u64) -> Option<u64> {
    if m.contains_key(asset_id) {
        Some(m[asset_id])
    } else {
        None
    }
}

/// Whether moving `asset_id` out of `from` can commit: the unit must
/// actually sit with `from`, and the move must be authorized by the holder's
/// own credential, never the recipient's.
pub open spec fn unit_transfer_ok(m: Map<u64, u64>, asset_id: u64, from: u64, authority: u64) -> bool {
    &&& holder_in(m, asset_id) == Some(from)
    &&& authority == from
}

/// Custody slots keyed by asset identifier: each non-fungible unit sits with
/// exactly one account. A rejected move leaves every slot as it was.
pub struct AssetCustody {
    holders: HashMap<u64, u64>,
}

impl View for AssetCustody {
    type V = Map<u64, u64>;

    closed spec fn view(&self) -> Map<u64, u64> {
        self.holders@
    }
}

impl AssetCustody {
    /// An empty custody table: no asset is held by anyone.
    pub fn new() -> (c: AssetCustody)
        ensures
            c@ == Map::<u64, u64>::empty(),
    {
        AssetCustody { holders: HashMap::new() }
    }

    /// The account currently holding `asset_id`, if any.
    pub fn holder_of(&self, asset_id: u64) -> (r: Option<u64>)
        ensures
            r == holder_in(self@, asset_id),
    {
        match self.holders.get(&asset_id) {
            Some(h) => Some(*h),
            None => None,
        }
    }

    /// Place `asset_id` with `holder` unconditionally. This is the
    /// bootstrapping entry point for minting and initial custody; settlement
    /// itself only ever transfers between holders.
    pub fn set_holder(&mut self, asset_id: u64, holder: u64)
        ensures
            final(self)@ == old(self)@.insert(asset_id, holder),
    {
        self.holders.insert(asset_id, holder);
    }

    /// Move custody of `asset_id` from `from` to `to`, authorized by
    /// `authority`. The move is rejected, with no change, unless the unit
    /// sits with `from` and `authority` is `from` itself.
    pub fn transfer_unit(&mut self, asset_id: u64, from: u64, to: u64, authority: u64) -> (r:
        Result<(), ErrorCode>)
        ensures
            unit_transfer_ok(old(self)@, asset_id, from, authority) ==> {
                &&& r == Ok::<(), ErrorCode>(())
                &&& final(self)@ == old(self)@.insert(asset_id, to)
            },
            !unit_transfer_ok(old(self)@, asset_id, from, authority) ==> {
                &&& r == Err::<(), ErrorCode>(ErrorCode::TransferFailed)
                &&& final(self)@ == old(self)@
            },
    {
        if authority != from {
            return Err(ErrorCode::TransferFailed);
        }
        match self.holders.get(&asset_id) {
            Some(h) => {
                if *h != from {
                    return Err(ErrorCode::TransferFailed);
                }
            },
            None => {
                return Err(ErrorCode::TransferFailed);
            },
        }
        self.holders.insert(asset_id, to);
        Ok(())
    }
}

} // verus!
