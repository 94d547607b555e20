//! The channel lifecycle engine.
//!
//! All records live in an explicit store, [`TvDao`]; every operation is a
//! single atomic step on it. The host runtime supplies the current time
//! and the verified signing identity as plain arguments, performs the
//! actual native-value transfer of the DAO share reported by
//! [`TvDao::pay_for_channel`], and enforces nothing else: the window
//! checks, the exactly-once vote, the deterministic winner selection, the
//! split arithmetic and the claim authorization are all decided here.

use crate::errors::TvDaoError;
use crate::identity::{dao_treasury_identity, dao_treasury_wallet, Identity};
use crate::records::{
    Channel, DaoState, PaymentRecord, VoterRecord, MAX_NAME_LENGTH, MAX_URL_LENGTH, PRICE_TIER_1,
    PRICE_TIER_2, PRICE_TIER_3, VOTING_PERIOD_SECONDS,
};
use vstd::prelude::*;
use vstd::string::StrSliceExecFns;

verus! {

/// Outcome of a payment: how the price was split. The broadcaster share
/// has been accrued on the channel; the DAO share is what the host must
/// transfer from the viewer to the treasury within the same transaction.
#[derive(Clone, Copy, Debug, PartialEq, Eq, Structural)]
pub struct PaymentSplit {
    pub broadcaster_share: u64,
    pub dao_share: u64,
}

/// The broadcaster's cut of a payment: 70 percent, rounded down.
pub open spec fn broadcaster_share_of(price: u64) -> int {
    price * 70 / 100
}

/// The DAO treasury's cut: whatever the broadcaster's rounded-down share
/// leaves of the price, so no unit is ever lost.
pub open spec fn dao_share_of(price: u64) -> int {
    price - broadcaster_share_of(price)
}

/// Which refusal, if any, a submission meets: the name and then the URL
/// must be within their length limits.
pub open spec fn submit_check(name: Seq<char>, embed_url: Seq<char>) -> Option<TvDaoError> {
    if name.len() > MAX_NAME_LENGTH {
        Some(TvDaoError::NameTooLong)
    } else if embed_url.len() > MAX_URL_LENGTH {
        Some(TvDaoError::UrlTooLong)
    } else {
        None
    }
}

/// A freshly submitted channel: open for voting, nothing finalized,
/// nothing collected, no votes yet.
pub open spec fn new_channel(
    channel_id: u64,
    broadcaster: Identity,
    name: String,
    embed_url: String,
    now: i64,
) -> Channel {
    Channel {
        channel_id,
        broadcaster,
        name,
        embed_url,
        submission_time: now,
        final_price: 0,
        is_finalized: false,
        total_revenue_collected: 0,
        votes_for_1_usdc: 0,
        votes_for_2_usdc: 0,
        votes_for_3_usdc: 0,
    }
}

/// Which refusal, if any, a claim meets: only the channel's broadcaster
/// may claim, and only when something has accrued.
pub open spec fn claim_check(c: Channel, claimer: Identity) -> Option<TvDaoError> {
    if claimer != c.broadcaster {
        Some(TvDaoError::UnauthorizedClaimer)
    } else if c.total_revenue_collected == 0 {
        Some(TvDaoError::NoEarningsToClaim)
    } else {
        None
    }
}

/// The three price tiers a viewer may vote for.
pub open spec fn valid_tier(tier: u8) -> bool {
    1 <= tier <= 3
}

/// Last instant at which a vote on this channel still counts; the bound
/// is inclusive.
pub open spec fn voting_deadline(c: Channel) -> int {
    c.submission_time + VOTING_PERIOD_SECONDS
}

/// The vote tally of the given tier, which must be valid.
pub open spec fn tier_votes(c: Channel, tier: u8) -> u32 {
    if tier == 1 {
        c.votes_for_1_usdc
    } else if tier == 2 {
        c.votes_for_2_usdc
    } else {
        c.votes_for_3_usdc
    }
}

/// Which refusal, if any, a vote meets, in the order the checks are made:
/// the tier must be one of 1, 2, 3; the channel must not be finalized;
/// the window must not have passed; the voter must not hold a vote proof
/// for this channel yet.
pub open spec fn vote_check(c: Channel, already_voted: bool, tier: u8, now: i64) -> Option<
    TvDaoError,
> {
    if !valid_tier(tier) {
        Some(TvDaoError::InvalidPriceTier)
    } else if c.is_finalized {
        Some(TvDaoError::VotingClosed)
    } else if now > voting_deadline(c) {
        Some(TvDaoError::VotingPeriodExpired)
    } else if already_voted {
        Some(TvDaoError::AlreadyVoted)
    } else {
        None
    }
}

/// The channel after one more vote for the given valid tier.
pub open spec fn with_vote(c: Channel, tier: u8) -> Channel {
    if tier == 1 {
        Channel { votes_for_1_usdc: (c.votes_for_1_usdc + 1) as u32, ..c }
    } else if tier == 2 {
        Channel { votes_for_2_usdc: (c.votes_for_2_usdc + 1) as u32, ..c }
    } else {
        Channel { votes_for_3_usdc: (c.votes_for_3_usdc + 1) as u32, ..c }
    }
}

/// Which refusal, if any, a finalization meets: the channel must not be
/// finalized already, and the voting window must have passed (a call at
/// exactly the deadline is still too early).
pub open spec fn finalize_check(c: Channel, now: i64) -> Option<TvDaoError> {
    if c.is_finalized {
        Some(TvDaoError::AlreadyFinalized)
    } else if now <= voting_deadline(c) {
        Some(TvDaoError::VotingStillOpen)
    } else {
        None
    }
}

/// The winner-selection rule, exactly as the lifecycle runs it: start
/// from tier 1 as the leader; tier 2 takes over when it has strictly
/// more votes, or on an exact tie with a leader that tier 1 is not part
/// of; tier 3 is then compared against the updated maximum the same way.
/// The tie branches are asymmetric and order-dependent on purpose: with
/// all tallies zero (or any tie that includes tier 1) the price stays at
/// tier 1.
pub open spec fn winning_price(v1: u32, v2: u32, v3: u32) -> u64 {
    let max0 = v1;
    let price1 = if v2 > max0 {
        PRICE_TIER_2
    } else if v2 == max0 && v1 != max0 {
        PRICE_TIER_2
    } else {
        PRICE_TIER_1
    };
    let max1 = if v2 > max0 {
        v2
    } else {
        max0
    };
    if v3 > max1 {
        PRICE_TIER_3
    } else if v3 == max1 && v1 != max1 && v2 != max1 {
        PRICE_TIER_3
    } else {
        price1
    }
}

/// Which refusal, if any, a payment on this channel meets: the price must
/// have been finalized and be nonzero, checked in that order.
pub open spec fn pay_check(c: Channel) -> Option<TvDaoError> {
    if !c.is_finalized {
        Some(TvDaoError::PriceNotFinalized)
    } else if c.final_price == 0 {
        Some(TvDaoError::PriceNotSet)
    } else {
        None
    }
}

/// The record store: the singleton registry plus every channel, vote
/// proof and payment record, as the host's keyed store would hold them.
/// A channel's id is its position in `channels`.
pub struct TvDao {
    pub dao_state: DaoState,
    pub channels: Vec<Channel>,
    pub voter_records: Vec<VoterRecord>,
    pub payment_records: Vec<PaymentRecord>,
}

impl TvDao {
    /// Well-formedness of the whole store:
    /// - the registry counter equals the number of channels ever created;
    /// - each channel's id is its position (so ids are unique and dense);
    /// - each channel record is itself well-formed;
    /// - every vote proof names an existing channel and is marked voted;
    /// - at most one vote proof exists per (voter, channel) pair;
    /// - at most one payment record exists per (payer, channel) pair.
    pub open spec fn wf(self) -> bool {
        &&& self.dao_state.next_channel_id == self.channels@.len()
        &&& forall|i: int|
            0 <= i < self.channels@.len() ==> (#[trigger] self.channels@[i]).channel_id == i
        &&& forall|i: int| 0 <= i < self.channels@.len() ==> (#[trigger] self.channels@[i]).wf()
        &&& forall|i: int|
            0 <= i < self.voter_records@.len() ==> {
                let v = #[trigger] self.voter_records@[i];
                v.channel_id < self.channels@.len() && v.has_voted
            }
        &&& forall|i: int, j: int|
            0 <= i < j < self.voter_records@.len() ==> !((#[trigger] self.voter_records@[i]).voter
                == (#[trigger] self.voter_records@[j]).voter && self.voter_records@[i].channel_id
                == self.voter_records@[j].channel_id)
        &&& forall|i: int|
            0 <= i < self.payment_records@.len() ==> (#[trigger] self.payment_records@[i]).channel_id
                < self.channels@.len()
        &&& forall|i: int, j: int|
            0 <= i < j < self.payment_records@.len() ==> !((
            #[trigger] self.payment_records@[i]).viewer == (
            #[trigger] self.payment_records@[j]).viewer && self.payment_records@[i].channel_id
                == self.payment_records@[j].channel_id)
    }

    /// Whether a vote proof exists for the pair: the existence of such a
    /// record is itself the proof of exactly-one-vote.
    pub open spec fn spec_has_voter_record(self, voter: Identity, channel_id: u64) -> bool {
        exists|i: int|
            0 <= i < self.voter_records@.len() && (#[trigger] self.voter_records@[i]).voter == voter
                && self.voter_records@[i].channel_id == channel_id
    }

    /// Whether a payment record exists for the pair.
    pub open spec fn spec_has_payment_record(self, viewer: Identity, channel_id: u64) -> bool {
        exists|i: int|
            0 <= i < self.payment_records@.len() && (#[trigger] self.payment_records@[i]).viewer
                == viewer && self.payment_records@[i].channel_id == channel_id
    }

    /// Creates the singleton registry at deployment: the counter starts at
    /// zero, the treasury is the fixed well-known wallet, the authority is
    /// the deploying caller, and no records exist yet. The host's
    /// create-once store semantics make a second initialization
    /// impossible, so there is no error path.
    pub fn initialize_dao_state(authority: Identity) -> (d: TvDao)
        ensures
            d.wf(),
            d.dao_state.next_channel_id == 0,
            d.dao_state.treasury == dao_treasury_identity(),
            d.dao_state.authority == authority,
            d.channels@.len() == 0,
            d.voter_records@.len() == 0,
            d.payment_records@.len() == 0,
    {
        TvDao {
            dao_state: DaoState { next_channel_id: 0, treasury: dao_treasury_wallet(), authority },
            channels: Vec::new(),
            voter_records: Vec::new(),
            payment_records: Vec::new(),
        }
    }

    /// A broadcaster submits a new channel listing.
    ///
    /// Refusals are exactly those of [`submit_check`], with no mutation.
    /// On success the channel takes the registry's current counter as its
    /// id — returned to the caller — and the counter grows by exactly 1;
    /// the new channel starts open with no votes. Overflow of the
    /// counter would be fatal and is required away.
    pub fn submit_channel(
        &mut self,
        broadcaster: Identity,
        name: String,
        embed_url: String,
        now: i64,
    ) -> (r: Result<u64, TvDaoError>)
        requires
            old(self).wf(),
            submit_check(name@, embed_url@) is None ==> old(self).dao_state.next_channel_id
                < u64::MAX,
        ensures
            final(self).wf(),
            match submit_check(name@, embed_url@) {
                Some(e) => r == Err::<u64, TvDaoError>(e) && *final(self) == *old(self),
                None => {
                    &&& r == Ok::<u64, TvDaoError>(old(self).dao_state.next_channel_id)
                    &&& final(self).dao_state.next_channel_id == old(
                        self,
                    ).dao_state.next_channel_id + 1
                    &&& final(self).dao_state.treasury == old(self).dao_state.treasury
                    &&& final(self).dao_state.authority == old(self).dao_state.authority
                    &&& final(self).channels@ == old(self).channels@.push(
                        new_channel(
                            old(self).dao_state.next_channel_id,
                            broadcaster,
                            name,
                            embed_url,
                            now,
                        ),
                    )
                    &&& final(self).voter_records@ == old(self).voter_records@
                    &&& final(self).payment_records@ == old(self).payment_records@
                },
            },
    {
        if name.as_str().unicode_len() > MAX_NAME_LENGTH {
            return Err(TvDaoError::NameTooLong);
        }
        if embed_url.as_str().unicode_len() > MAX_URL_LENGTH {
            return Err(TvDaoError::UrlTooLong);
        }
        let channel_id = self.dao_state.next_channel_id;
        let channel = Channel {
            channel_id,
            broadcaster,
            name,
            embed_url,
            submission_time: now,
            final_price: 0,
            is_finalized: false,
            total_revenue_collected: 0,
            votes_for_1_usdc: 0,
            votes_for_2_usdc: 0,
            votes_for_3_usdc: 0,
        };
        self.channels.push(channel);
        self.dao_state.next_channel_id = channel_id + 1;
        Ok(channel_id)
    }

    /// A viewer casts exactly one vote for a price tier on an open
    /// channel within its voting window.
    ///
    /// Refusals are exactly those of [`vote_check`], with no mutation; in
    /// particular a second vote by the same viewer on the same channel is
    /// always refused with `AlreadyVoted`, and a vote at exactly the
    /// deadline still counts. On success the chosen tier's tally grows by
    /// one and a vote proof for the pair is created. Overflow of a
    /// 32-bit tally would be fatal and is required away.
    pub fn vote_price(
        &mut self,
        viewer: Identity,
        channel_id: u64,
        proposed_price_tier: u8,
        now: i64,
    ) -> (r: Result<(), TvDaoError>)
        requires
            old(self).wf(),
            channel_id < old(self).channels@.len(),
            old(self).channels@[channel_id as int].submission_time + VOTING_PERIOD_SECONDS
                <= i64::MAX,
            vote_check(
                old(self).channels@[channel_id as int],
                old(self).spec_has_voter_record(viewer, channel_id),
                proposed_price_tier,
                now,
            ) is None ==> tier_votes(old(self).channels@[channel_id as int], proposed_price_tier)
                < u32::MAX,
        ensures
            final(self).wf(),
            ({
                let c = old(self).channels@[channel_id as int];
                let voted = old(self).spec_has_voter_record(viewer, channel_id);
                match vote_check(c, voted, proposed_price_tier, now) {
                    Some(e) => r == Err::<(), TvDaoError>(e) && *final(self) == *old(self),
                    None => {
                        &&& r == Ok::<(), TvDaoError>(())
                        &&& final(self).channels@ == old(self).channels@.update(
                            channel_id as int,
                            with_vote(c, proposed_price_tier),
                        )
                        &&& final(self).voter_records@ == old(self).voter_records@.push(
                            (VoterRecord { voter: viewer, channel_id, has_voted: true }),
                        )
                        &&& final(self).payment_records@ == old(self).payment_records@
                        &&& final(self).dao_state == old(self).dao_state
                    },
                }
            }),
    {
        if !(proposed_price_tier >= 1 && proposed_price_tier <= 3) {
            return Err(TvDaoError::InvalidPriceTier);
        }
        let n = self.channels.len();
        assert(channel_id < n);
        let idx = channel_id as usize;
        if self.channels[idx].is_finalized {
            return Err(TvDaoError::VotingClosed);
        }
        let deadline = self.channels[idx].submission_time + VOTING_PERIOD_SECONDS;
        if now > deadline {
            return Err(TvDaoError::VotingPeriodExpired);
        }
        if self.has_voter_record(viewer, channel_id) {
            return Err(TvDaoError::AlreadyVoted);
        }
        let c = &mut self.channels[idx];
        if proposed_price_tier == 1 {
            c.votes_for_1_usdc = c.votes_for_1_usdc + 1;
        } else if proposed_price_tier == 2 {
            c.votes_for_2_usdc = c.votes_for_2_usdc + 1;
        } else {
            c.votes_for_3_usdc = c.votes_for_3_usdc + 1;
        }
        self.voter_records.push(VoterRecord { voter: viewer, channel_id, has_voted: true });
        Ok(())
    }

    /// Fixes a channel's price from its accumulated votes, once the
    /// voting window has passed. Callable by anyone: no signer identity
    /// is taken.
    ///
    /// Refusals are exactly those of [`finalize_check`], with no
    /// mutation, so the operation succeeds exactly once per channel. On
    /// success the price becomes [`winning_price`] of the frozen tallies,
    /// the channel is marked finalized irreversibly, and every other
    /// field is untouched.
    pub fn finalize_price(&mut self, channel_id: u64, now: i64) -> (r: Result<u64, TvDaoError>)
        requires
            old(self).wf(),
            channel_id < old(self).channels@.len(),
            old(self).channels@[channel_id as int].submission_time + VOTING_PERIOD_SECONDS
                <= i64::MAX,
        ensures
            final(self).wf(),
            ({
                let c = old(self).channels@[channel_id as int];
                match finalize_check(c, now) {
                    Some(e) => r == Err::<u64, TvDaoError>(e) && *final(self) == *old(self),
                    None => {
                        &&& r == Ok::<u64, TvDaoError>(
                            winning_price(c.votes_for_1_usdc, c.votes_for_2_usdc, c.votes_for_3_usdc),
                        )
                        &&& final(self).channels@ == old(self).channels@.update(
                            channel_id as int,
                            (Channel {
                                final_price: winning_price(
                                    c.votes_for_1_usdc,
                                    c.votes_for_2_usdc,
                                    c.votes_for_3_usdc,
                                ),
                                is_finalized: true,
                                ..c
                            }),
                        )
                        &&& final(self).voter_records@ == old(self).voter_records@
                        &&& final(self).payment_records@ == old(self).payment_records@
                        &&& final(self).dao_state == old(self).dao_state
                    },
                }
            }),
    {
        let n = self.channels.len();
        assert(channel_id < n);
        let idx = channel_id as usize;
        if self.channels[idx].is_finalized {
            return Err(TvDaoError::AlreadyFinalized);
        }
        let deadline = self.channels[idx].submission_time + VOTING_PERIOD_SECONDS;
        if now <= deadline {
            return Err(TvDaoError::VotingStillOpen);
        }
        let v1 = self.channels[idx].votes_for_1_usdc;
        let v2 = self.channels[idx].votes_for_2_usdc;
        let v3 = self.channels[idx].votes_for_3_usdc;
        let mut winning: u64 = PRICE_TIER_1;
        let mut max_votes = v1;
        if v2 > max_votes {
            max_votes = v2;
            winning = PRICE_TIER_2;
        } else if v2 == max_votes && v1 != max_votes {
            winning = PRICE_TIER_2;
        }
        if v3 > max_votes {
            winning = PRICE_TIER_3;
        } else if v3 == max_votes && v1 != max_votes && v2 != max_votes {
            winning = PRICE_TIER_3;
        }
        let c = &mut self.channels[idx];
        c.final_price = winning;
        c.is_finalized = true;
        Ok(winning)
    }

    /// A viewer pays the finalized price for a channel.
    ///
    /// Refusals are exactly those of [`pay_check`], with no mutation. On
    /// success the price splits into the broadcaster's 70 percent
    /// (rounded down, accrued on the channel) and the DAO's remainder
    /// (returned for the host to transfer to the treasury); the two
    /// shares always sum to the price exactly. A payment record for the
    /// pair is created; the host's create-once store rules out a second
    /// payment by the same viewer, so one is required not to exist.
    /// Overflow of the accrued revenue would be fatal and is required
    /// away.
    pub fn pay_for_channel(
        &mut self,
        viewer: Identity,
        channel_id: u64,
        now: i64,
    ) -> (r: Result<PaymentSplit, TvDaoError>)
        requires
            old(self).wf(),
            channel_id < old(self).channels@.len(),
            !old(self).spec_has_payment_record(viewer, channel_id),
            pay_check(old(self).channels@[channel_id as int]) is None
                ==> old(self).channels@[channel_id as int].total_revenue_collected
                + broadcaster_share_of(old(self).channels@[channel_id as int].final_price)
                <= u64::MAX,
        ensures
            final(self).wf(),
            ({
                let c = old(self).channels@[channel_id as int];
                match pay_check(c) {
                    Some(e) => r == Err::<PaymentSplit, TvDaoError>(e) && *final(self) == *old(
                        self,
                    ),
                    None => {
                        &&& r == Ok::<PaymentSplit, TvDaoError>(
                            (PaymentSplit {
                                broadcaster_share: broadcaster_share_of(c.final_price) as u64,
                                dao_share: dao_share_of(c.final_price) as u64,
                            }),
                        )
                        &&& broadcaster_share_of(c.final_price) + dao_share_of(c.final_price)
                            == c.final_price
                        &&& final(self).channels@ == old(self).channels@.update(
                            channel_id as int,
                            (Channel {
                                total_revenue_collected: (c.total_revenue_collected
                                    + broadcaster_share_of(c.final_price)) as u64,
                                ..c
                            }),
                        )
                        &&& final(self).payment_records@ == old(self).payment_records@.push(
                            (PaymentRecord {
                                viewer,
                                channel_id,
                                amount_paid: c.final_price,
                                timestamp: now,
                            }),
                        )
                        &&& final(self).voter_records@ == old(self).voter_records@
                        &&& final(self).dao_state == old(self).dao_state
                    },
                }
            }),
    {
        let n = self.channels.len();
        assert(channel_id < n);
        let idx = channel_id as usize;
        if !self.channels[idx].is_finalized {
            return Err(TvDaoError::PriceNotFinalized);
        }
        let price = self.channels[idx].final_price;
        if price == 0 {
            return Err(TvDaoError::PriceNotSet);
        }
        assert(price * 70 / 100 <= price) by (nonlinear_arith)
            requires
                price > 0,
        ;
        let broadcaster_share = price * 70 / 100;
        let dao_share = price - broadcaster_share;
        let c = &mut self.channels[idx];
        c.total_revenue_collected = c.total_revenue_collected + broadcaster_share;
        self.payment_records.push(
            PaymentRecord { viewer, channel_id, amount_paid: price, timestamp: now },
        );
        Ok(PaymentSplit { broadcaster_share, dao_share })
    }

    /// The broadcaster claims the revenue accrued on their channel.
    ///
    /// Refusals are exactly those of [`claim_check`], with no mutation:
    /// any identity other than the channel's broadcaster is refused
    /// whatever has accrued, and a zero balance is refused. On success
    /// the accrued balance is zeroed and its prior value returned as the
    /// amount claimed. This is a ledger-only operation: moving the
    /// underlying native value is left to the host, which in the present
    /// design never escrowed it — a known gap, kept as is.
    pub fn claim_earnings(&mut self, broadcaster: Identity, channel_id: u64) -> (r: Result<
        u64,
        TvDaoError,
    >)
        requires
            old(self).wf(),
            channel_id < old(self).channels@.len(),
        ensures
            final(self).wf(),
            ({
                let c = old(self).channels@[channel_id as int];
                match claim_check(c, broadcaster) {
                    Some(e) => r == Err::<u64, TvDaoError>(e) && *final(self) == *old(self),
                    None => {
                        &&& r == Ok::<u64, TvDaoError>(c.total_revenue_collected)
                        &&& final(self).channels@ == old(self).channels@.update(
                            channel_id as int,
                            (Channel { total_revenue_collected: 0, ..c }),
                        )
                        &&& final(self).voter_records@ == old(self).voter_records@
                        &&& final(self).payment_records@ == old(self).payment_records@
                        &&& final(self).dao_state == old(self).dao_state
                    },
                }
            }),
    {
        let n = self.channels.len();
        assert(channel_id < n);
        let idx = channel_id as usize;
        if !(broadcaster == self.channels[idx].broadcaster) {
            return Err(TvDaoError::UnauthorizedClaimer);
        }
        let earnings_to_claim = self.channels[idx].total_revenue_collected;
        if earnings_to_claim == 0 {
            return Err(TvDaoError::NoEarningsToClaim);
        }
        let c = &mut self.channels[idx];
        c.total_revenue_collected = 0;
        Ok(earnings_to_claim)
    }

    /// Looks the pair up in the vote ledger.
    pub fn has_voter_record(&self, voter: Identity, channel_id: u64) -> (r: bool)
        ensures
            r == self.spec_has_voter_record(voter, channel_id),
    {
        let n = self.voter_records.len();
        let mut k: usize = 0;
        while k < n
            invariant
                n == self.voter_records@.len(),
                k <= n,
                forall|i: int|
                    0 <= i < k ==> !((#[trigger] self.voter_records@[i]).voter == voter
                        && self.voter_records@[i].channel_id == channel_id),
            decreases n - k,
        {
            if self.voter_records[k].voter == voter && self.voter_records[k].channel_id
                == channel_id {
                return true;
            }
            k = k + 1;
        }
        false
    }

    /// Looks the pair up in the payment ledger.
    pub fn has_payment_record(&self, viewer: Identity, channel_id: u64) -> (r: bool)
        ensures
            r == self.spec_has_payment_record(viewer, channel_id),
    {
        let n = self.payment_records.len();
        let mut k: usize = 0;
        while k < n
            invariant
                n == self.payment_records@.len(),
                k <= n,
                forall|i: int|
                    0 <= i < k ==> !((#[trigger] self.payment_records@[i]).viewer == viewer
                        && self.payment_records@[i].channel_id == channel_id),
            decreases n - k,
        {
            if self.payment_records[k].viewer == viewer && self.payment_records[k].channel_id
                == channel_id {
                return true;
            }
            k = k + 1;
        }
        false
    }
}

} // verus!
