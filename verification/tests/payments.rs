use tvdao::engine::{PaymentSplit, TvDao};
use tvdao::errors::TvDaoError;
use tvdao::identity::Identity;
use tvdao::records::{Channel, DaoState};

fn id(n: u64) -> Identity {
    Identity { w0: n, w1: 0, w2: 0, w3: 0 }
}

fn finalized_store(price_votes_tier: u8) -> TvDao {
    let mut d = TvDao::initialize_dao_state(id(1));
    d.submit_channel(id(2), "News".to_string(), "https://example.com".to_string(), 1000).unwrap();
    if price_votes_tier >= 1 {
        d.vote_price(id(100), 0, price_votes_tier, 1100).unwrap();
    }
    d.finalize_price(0, 2801).unwrap();
    d
}

#[test]
fn pay_before_finalization_rejected() {
    let mut d = TvDao::initialize_dao_state(id(1));
    d.submit_channel(id(2), "News".to_string(), "https://example.com".to_string(), 1000).unwrap();
    assert_eq!(d.pay_for_channel(id(50), 0, 3000), Err(TvDaoError::PriceNotFinalized));
    assert_eq!(d.payment_records.len(), 0);
}

#[test]
fn pay_splits_price_seventy_thirty() {
    let mut d = finalized_store(2);
    assert_eq!(d.channels[0].final_price, 2_000_000_000);
    let split = d.pay_for_channel(id(50), 0, 3000).unwrap();
    assert_eq!(
        split,
        PaymentSplit { broadcaster_share: 1_400_000_000, dao_share: 600_000_000 }
    );
    assert_eq!(split.broadcaster_share + split.dao_share, 2_000_000_000);
    assert_eq!(d.channels[0].total_revenue_collected, 1_400_000_000);
}

#[test]
fn pay_records_the_payment() {
    let mut d = finalized_store(2);
    d.pay_for_channel(id(50), 0, 3000).unwrap();
    assert_eq!(d.payment_records.len(), 1);
    let p = &d.payment_records[0];
    assert_eq!(p.viewer, id(50));
    assert_eq!(p.channel_id, 0);
    assert_eq!(p.amount_paid, 2_000_000_000);
    assert_eq!(p.timestamp, 3000);
    assert!(d.has_payment_record(id(50), 0));
    assert!(!d.has_payment_record(id(51), 0));
}

#[test]
fn payments_accrue_per_viewer() {
    let mut d = finalized_store(3);
    assert_eq!(d.channels[0].final_price, 3_000_000_000);
    d.pay_for_channel(id(50), 0, 3000).unwrap();
    d.pay_for_channel(id(51), 0, 3100).unwrap();
    assert_eq!(d.channels[0].total_revenue_collected, 4_200_000_000);
    assert_eq!(d.payment_records.len(), 2);
}

#[test]
fn pay_unset_price_rejected() {
    // A channel marked finalized with no price cannot arise through the
    // operations; build the store by hand to reach the second check.
    let d0 = TvDao::initialize_dao_state(id(1));
    let mut d = TvDao {
        dao_state: DaoState { next_channel_id: 1, ..d0.dao_state },
        channels: vec![Channel {
            channel_id: 0,
            broadcaster: id(2),
            name: "News".to_string(),
            embed_url: "https://example.com".to_string(),
            submission_time: 1000,
            final_price: 0,
            is_finalized: true,
            total_revenue_collected: 0,
            votes_for_1_usdc: 0,
            votes_for_2_usdc: 0,
            votes_for_3_usdc: 0,
        }],
        voter_records: vec![],
        payment_records: vec![],
    };
    assert_eq!(d.pay_for_channel(id(50), 0, 3000), Err(TvDaoError::PriceNotSet));
}
