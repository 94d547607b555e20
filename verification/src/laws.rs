//! The system-wide laws, each stated over the spec functions the
//! operations' contracts use, and proved once and for all.

use crate::engine::{
    broadcaster_share_of, claim_check, dao_share_of, finalize_check, valid_tier, vote_check,
    voting_deadline, winning_price, TvDao,
};
use crate::errors::TvDaoError;
use crate::identity::Identity;
use crate::records::{Channel, VoterRecord, PRICE_TIER_1, PRICE_TIER_2, PRICE_TIER_3};
use vstd::prelude::*;

verus! {

/// At most one vote proof exists per (voter, channel) pair: any two
/// positions in a well-formed store holding that pair are the same
/// position.
pub proof fn lemma_at_most_one_voter_record(
    d: TvDao,
    voter: Identity,
    channel_id: u64,
    i: int,
    j: int,
)
    requires
        d.wf(),
        0 <= i < d.voter_records@.len(),
        0 <= j < d.voter_records@.len(),
        d.voter_records@[i].voter == voter,
        d.voter_records@[i].channel_id == channel_id,
        d.voter_records@[j].voter == voter,
        d.voter_records@[j].channel_id == channel_id,
    ensures
        i == j,
{
}

/// A successful vote leaves its proof behind: a store whose vote ledger
/// grew by the pair's record answers the existence check positively.
pub proof fn lemma_vote_leaves_proof(pre: TvDao, post: TvDao, voter: Identity, channel_id: u64)
    requires
        post.voter_records@ == pre.voter_records@.push(
            (VoterRecord { voter, channel_id, has_voted: true }),
        ),
    ensures
        post.spec_has_voter_record(voter, channel_id),
{
    assert(post.voter_records@[pre.voter_records@.len() as int].voter == voter);
}

/// A second vote by the same voter on the same channel is always
/// refused with `AlreadyVoted`: once the pair's vote proof exists, any
/// further vote that passes the tier, state and window checks meets it.
pub proof fn lemma_second_vote_refused(
    d: TvDao,
    voter: Identity,
    channel_id: u64,
    tier: u8,
    now: i64,
)
    requires
        d.spec_has_voter_record(voter, channel_id),
        channel_id < d.channels@.len(),
        valid_tier(tier),
        !d.channels@[channel_id as int].is_finalized,
        now <= voting_deadline(d.channels@[channel_id as int]),
    ensures
        vote_check(
            d.channels@[channel_id as int],
            d.spec_has_voter_record(voter, channel_id),
            tier,
            now,
        ) == Some(TvDaoError::AlreadyVoted),
{
}

/// The voting window is inclusive at its boundary: a well-formed vote on
/// an open channel is refused with `VotingPeriodExpired` exactly when it
/// comes strictly after the deadline, and accepted at the deadline
/// itself.
pub proof fn lemma_voting_window_boundary(c: Channel, voted: bool, tier: u8, now: i64)
    requires
        valid_tier(tier),
        !c.is_finalized,
    ensures
        now > voting_deadline(c) ==> vote_check(c, voted, tier, now) == Some(
            TvDaoError::VotingPeriodExpired,
        ),
        now <= voting_deadline(c) && !voted ==> vote_check(c, voted, tier, now) is None,
{
}

/// A channel's tallies are frozen once it is finalized: every vote for a
/// valid tier on a finalized channel is refused with `VotingClosed`,
/// whenever it comes and whoever casts it.
pub proof fn lemma_finalized_channel_refuses_votes(c: Channel, voted: bool, tier: u8, now: i64)
    requires
        valid_tier(tier),
        c.is_finalized,
    ensures
        vote_check(c, voted, tier, now) == Some(TvDaoError::VotingClosed),
{
}

/// Finalization is refused with `VotingStillOpen` up to and including
/// the deadline, possible exactly once strictly after it, and refused
/// with `AlreadyFinalized` ever after.
pub proof fn lemma_finalize_window(c: Channel, now: i64)
    ensures
        !c.is_finalized && now <= voting_deadline(c) ==> finalize_check(c, now) == Some(
            TvDaoError::VotingStillOpen,
        ),
        !c.is_finalized && now > voting_deadline(c) ==> finalize_check(c, now) is None,
        c.is_finalized ==> finalize_check(c, now) == Some(TvDaoError::AlreadyFinalized),
{
}

/// The winner selection is total and always lands on a tier price; in
/// particular it never leaves the price zero.
pub proof fn lemma_winning_price_is_tier(v1: u32, v2: u32, v3: u32)
    ensures
        winning_price(v1, v2, v3) == PRICE_TIER_1 || winning_price(v1, v2, v3) == PRICE_TIER_2
            || winning_price(v1, v2, v3) == PRICE_TIER_3,
        winning_price(v1, v2, v3) != 0,
{
}

/// The split of any price loses nothing: the broadcaster's rounded-down
/// 70 percent and the DAO's remainder always sum to the price exactly,
/// and each share stays within it.
pub proof fn lemma_shares_sum_to_price(price: u64)
    ensures
        broadcaster_share_of(price) + dao_share_of(price) == price,
        0 <= broadcaster_share_of(price) <= price,
        0 <= dao_share_of(price) <= price,
{
    assert(0 <= price * 70 / 100 <= price) by (nonlinear_arith);
}

/// In a well-formed store a channel's price is set exactly when the
/// channel is finalized.
pub proof fn lemma_price_set_iff_finalized(d: TvDao, channel_id: u64)
    requires
        d.wf(),
        channel_id < d.channels@.len(),
    ensures
        d.channels@[channel_id as int].is_finalized <==> d.channels@[
            channel_id as int
        ].final_price != 0,
{
}

/// Only the channel's broadcaster can claim, and only a positive accrued
/// balance: any other identity is refused with `UnauthorizedClaimer`
/// whatever has accrued, and an empty balance with `NoEarningsToClaim`.
pub proof fn lemma_claim_authorization(c: Channel, claimer: Identity)
    ensures
        claimer != c.broadcaster ==> claim_check(c, claimer) == Some(
            TvDaoError::UnauthorizedClaimer,
        ),
        claimer == c.broadcaster && c.total_revenue_collected == 0 ==> claim_check(c, claimer)
            == Some(TvDaoError::NoEarningsToClaim),
        claimer == c.broadcaster && c.total_revenue_collected > 0 ==> claim_check(c, claimer)
            is None,
{
}

} // verus!
