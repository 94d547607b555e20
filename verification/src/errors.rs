//! The error taxonomy: every precondition failure surfaces as one of these
//! stable, enumerable codes, and the enclosing transaction is aborted with
//! no partial mutation.

use vstd::prelude::*;

verus! {

/// Every way an operation can be refused.
///
/// Validation errors (`NameTooLong`, `UrlTooLong`, `InvalidPriceTier`)
/// mean the input is malformed; state-machine violations (`VotingClosed`,
/// `VotingPeriodExpired`, `VotingStillOpen`, `AlreadyFinalized`,
/// `PriceNotFinalized`, `PriceNotSet`) mean a well-formed request arrived
/// in the wrong lifecycle state; `UnauthorizedClaimer` is an authorization
/// failure; `AlreadyVoted` is duplicate-vote prevention; `NoEarningsToClaim`
/// means there is nothing to disburse.
#[derive(Clone, Copy, Debug, PartialEq, Eq, Structural)]
pub enum TvDaoError {
    NameTooLong,
    UrlTooLong,
    VotingClosed,
    VotingPeriodExpired,
    VotingStillOpen,
    InvalidPriceTier,
    AlreadyFinalized,
    PriceNotFinalized,
    PriceNotSet,
    AlreadyVoted,
    UnauthorizedClaimer,
    NoEarningsToClaim,
}

} // verus!
