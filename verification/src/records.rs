//! The record kinds held in the store, and the constants that govern them.

use crate::identity::Identity;
use vstd::prelude::*;

verus! {

/// Length of the voting window, in seconds, starting at a channel's
/// submission time. The boundary is inclusive: a vote at exactly
/// `submission_time + VOTING_PERIOD_SECONDS` still counts.
pub const VOTING_PERIOD_SECONDS: i64 = 30 * 60;

/// Longest accepted channel name, in characters.
pub const MAX_NAME_LENGTH: usize = 50;

/// Longest accepted embed URL, in characters.
pub const MAX_URL_LENGTH: usize = 200;

/// Price of tier 1, in native currency units.
pub const PRICE_TIER_1: u64 = 1_000_000_000;

/// Price of tier 2, in native currency units.
pub const PRICE_TIER_2: u64 = 2_000_000_000;

/// Price of tier 3, in native currency units.
pub const PRICE_TIER_3: u64 = 3_000_000_000;

/// A rough popularity bucket for a channel listing. Carried for clients;
/// no rule in this core reads it.
#[derive(Clone, Copy, Debug, PartialEq, Eq, Structural, Default)]
pub enum ChannelCategory {
    #[default]
    New,
    Popular,
    TrendingNow,
}

/// The process-wide singleton registry: the next channel id to assign and
/// the identities the DAO runs under.
#[derive(Clone, Copy, Debug, PartialEq, Eq, Structural)]
pub struct DaoState {
    /// Monotonically increasing counter; grows by exactly 1 per submission
    /// and is never reused.
    pub next_channel_id: u64,
    /// Destination of the DAO's share of every payment.
    pub treasury: Identity,
    /// Administrative owner; unused beyond initialization in this core.
    pub authority: Identity,
}

/// One broadcaster-submitted channel listing, from submission through
/// finalization and payment.
#[derive(Clone, Debug)]
pub struct Channel {
    /// Immutable; assigned from the registry counter at creation.
    pub channel_id: u64,
    /// Immutable; the only identity allowed to claim earnings.
    pub broadcaster: Identity,
    pub name: String,
    pub embed_url: String,
    /// Timestamp at submission; the voting window starts here.
    pub submission_time: i64,
    /// Zero until finalization, then one of the three tier prices, written
    /// exactly once.
    pub final_price: u64,
    /// Transitions false to true exactly once.
    pub is_finalized: bool,
    /// Broadcaster's accrued share, in native units; grows on each payment
    /// and is zeroed on claim.
    pub total_revenue_collected: u64,
    pub votes_for_1_usdc: u32,
    pub votes_for_2_usdc: u32,
    pub votes_for_3_usdc: u32,
}

impl Channel {
    /// Well-formedness of a single channel record: the name and URL are
    /// within their limits, and the final price is nonzero exactly when
    /// the channel is finalized, in which case it is one of the three
    /// tier prices.
    pub open spec fn wf(self) -> bool {
        &&& self.name@.len() <= MAX_NAME_LENGTH
        &&& self.embed_url@.len() <= MAX_URL_LENGTH
        &&& self.is_finalized <==> self.final_price != 0
        &&& (self.final_price == 0 || self.final_price == PRICE_TIER_1
            || self.final_price == PRICE_TIER_2 || self.final_price == PRICE_TIER_3)
    }
}

/// Proof that a given voter has voted on a given channel; created at most
/// once per (voter, channel) pair and immutable thereafter.
#[derive(Clone, Copy, Debug, PartialEq, Eq, Structural)]
pub struct VoterRecord {
    pub voter: Identity,
    pub channel_id: u64,
    /// Always true once the record exists.
    pub has_voted: bool,
}

/// Audit record of a completed payment; created at most once per
/// (payer, channel) pair.
#[derive(Clone, Copy, Debug, PartialEq, Eq, Structural)]
pub struct PaymentRecord {
    pub viewer: Identity,
    pub channel_id: u64,
    /// The full finalized price the viewer paid.
    pub amount_paid: u64,
    pub timestamp: i64,
}

} // verus!
