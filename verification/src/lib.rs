//! A fixed-price marketplace for unique digital assets.
//!
//! An owner lists an asset at a fixed price, any party may buy it, and the
//! owner may cancel an unsold listing. The heart of the library is the
//! listing lifecycle and the atomic-swap settlement engine: a purchase either
//! moves the payment to the seller, moves the asset to the buyer and
//! deactivates the listing, or it changes nothing at all.
//!
//! State is held in explicit, transactionally updated key-value stores:
//! a listing store, a funds ledger and an asset-custody table. Every
//! operation commits as one all-or-nothing unit, which is what rules out a
//! double sale: once a listing has been sold or cancelled, `is_active` is
//! `false` forever, and every later mutation attempt is rejected.

pub mod custody;
pub mod errors;
pub mod laws;
pub mod ledger;
pub mod listing;
pub mod market;
pub mod store;
