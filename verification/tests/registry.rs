use tvdao::engine::TvDao;
use tvdao::errors::TvDaoError;
use tvdao::identity::{dao_treasury_wallet, Identity};
use tvdao::records::ChannelCategory;

fn id(n: u64) -> Identity {
    Identity { w0: n, w1: 0, w2: 0, w3: 0 }
}

#[test]
fn initialize_sets_registry() {
    let d = TvDao::initialize_dao_state(id(7));
    assert_eq!(d.dao_state.next_channel_id, 0);
    assert_eq!(d.dao_state.treasury, dao_treasury_wallet());
    assert_eq!(d.dao_state.authority, id(7));
    assert_eq!(d.channels.len(), 0);
    assert_eq!(d.voter_records.len(), 0);
    assert_eq!(d.payment_records.len(), 0);
}

#[test]
fn submit_assigns_sequential_ids() {
    let mut d = TvDao::initialize_dao_state(id(1));
    let first = d.submit_channel(id(2), "News".to_string(), "https://example.com/a".to_string(), 1000);
    assert_eq!(first, Ok(0));
    assert_eq!(d.dao_state.next_channel_id, 1);
    let second = d.submit_channel(id(3), "Music".to_string(), "https://example.com/b".to_string(), 1200);
    assert_eq!(second, Ok(1));
    assert_eq!(d.dao_state.next_channel_id, 2);
    assert_eq!(d.channels.len(), 2);
    assert_eq!(d.channels[0].channel_id, 0);
    assert_eq!(d.channels[1].channel_id, 1);
}

#[test]
fn submit_starts_channel_open_and_empty() {
    let mut d = TvDao::initialize_dao_state(id(1));
    d.submit_channel(id(2), "News".to_string(), "https://example.com/a".to_string(), 1000).unwrap();
    let c = &d.channels[0];
    assert_eq!(c.broadcaster, id(2));
    assert_eq!(c.name, "News");
    assert_eq!(c.embed_url, "https://example.com/a");
    assert_eq!(c.submission_time, 1000);
    assert!(!c.is_finalized);
    assert_eq!(c.final_price, 0);
    assert_eq!(c.total_revenue_collected, 0);
    assert_eq!(c.votes_for_1_usdc, 0);
    assert_eq!(c.votes_for_2_usdc, 0);
    assert_eq!(c.votes_for_3_usdc, 0);
}

#[test]
fn channel_category_defaults_to_new() {
    assert_eq!(ChannelCategory::default(), ChannelCategory::New);
    assert_ne!(ChannelCategory::Popular, ChannelCategory::TrendingNow);
}

#[test]
fn submit_rejects_long_name() {
    let mut d = TvDao::initialize_dao_state(id(1));
    let name = "x".repeat(51);
    let r = d.submit_channel(id(2), name, "https://example.com".to_string(), 1000);
    assert_eq!(r, Err(TvDaoError::NameTooLong));
    assert_eq!(d.dao_state.next_channel_id, 0);
    assert_eq!(d.channels.len(), 0);
}

#[test]
fn submit_rejects_long_url() {
    let mut d = TvDao::initialize_dao_state(id(1));
    let url = "u".repeat(201);
    let r = d.submit_channel(id(2), "News".to_string(), url, 1000);
    assert_eq!(r, Err(TvDaoError::UrlTooLong));
    assert_eq!(d.channels.len(), 0);
}

#[test]
fn submit_accepts_boundary_lengths() {
    let mut d = TvDao::initialize_dao_state(id(1));
    let name = "x".repeat(50);
    let url = "u".repeat(200);
    let r = d.submit_channel(id(2), name, url, 1000);
    assert_eq!(r, Ok(0));
    assert_eq!(d.channels.len(), 1);
}
