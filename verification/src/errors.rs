//! The typed rejections an entry point can return.

use vstd::prelude::*;

verus! {

/// Why a state transition was refused.  Every error is terminal for the
/// attempted transition: the engine state is left exactly as it was.
#[derive(Clone, Copy, PartialEq, Eq, Structural, Debug)]
pub enum P2PError {
    /// A creation step was given a zero offered amount, or a deposit did not
    /// match the amount recorded on the offer.
    InvalidAmount,
    /// The completion flag of the offer was already set.
    AlreadySettled,
    /// The initiating identity equals the counterparty identity recorded on
    /// the offer.
    SelfTradeForbidden,
    /// A finalize step ran before the buyer side of the record was bound.
    UnboundOffer,
    /// A binding step ran on a record whose buyer side was already bound.
    AlreadyBound,
    /// The asset-move primitive rejected a debit or credit: insufficient
    /// balance, an asset kind not matching the offer, or a balance that
    /// cannot take the credit.
    TransferFailure,
    /// No offer record exists under the given key.
    UnknownOffer,
    /// An offer record already exists under the given key.
    DuplicateOffer,
}

impl P2PError {
    /// A short human-readable description of the rejection.
    pub fn describe(&self) -> &'static str {
        match self {
            P2PError::InvalidAmount => "invalid or zero amount",
            P2PError::AlreadySettled => "swap is already completed",
            P2PError::SelfTradeForbidden => "initiator and counterparty cannot be the same",
            P2PError::UnboundOffer => "offer has no bound counterparty yet",
            P2PError::AlreadyBound => "offer counterparty is already bound",
            P2PError::TransferFailure => "asset transfer was rejected",
            P2PError::UnknownOffer => "no offer exists under this key",
            P2PError::DuplicateOffer => "an offer already exists under this key",
        }
    }
}

} // verus!
