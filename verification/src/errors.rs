//! The error taxonomy of the marketplace.

use vstd::prelude::*;

verus! {

/// Every way a marketplace operation can fail. Each failure aborts the whole
/// operation with zero partial effect, and each kind is surfaced distinctly
/// so a caller can decide whether to retry, top up funds, or abandon.
#[derive(Clone, Copy, Debug, PartialEq, Eq, Structural)]
pub enum ErrorCode {
    /// Creation-time identifier collision: the listing identifier is
    /// already occupied, so the existing record's terms are never
    /// overwritten.
    DuplicateListing,
    /// An operation named a listing identifier that has no record.
    NotFound,
    /// A principal other than the owner attempted an owner-only action,
    /// or a buy named a payee that is not the listing's owner.
    Unauthorized,
    /// A buy against a listing that is missing, already sold or cancelled.
    InactiveListing,
    /// The buyer's spendable balance is below the listing price.
    InsufficientFunds,
    /// The currency or custody move was rejected by the ledger or custody
    /// subsystem; the whole operation aborted and the listing stays active.
    TransferFailed,
}

impl ErrorCode {
    /// A short human-readable description of the failure.
    pub fn message(&self) -> &'static str {
        match self {
            ErrorCode::DuplicateListing => "A listing with this identifier already exists.",
            ErrorCode::NotFound => "No listing exists with this identifier.",
            ErrorCode::Unauthorized => "Unauthorized action.",
            ErrorCode::InactiveListing => "Listing is not active.",
            ErrorCode::InsufficientFunds => "Insufficient funds to buy the asset.",
            ErrorCode::TransferFailed => "The funds or asset transfer was rejected.",
        }
    }
}

} // verus!
