use tvdao::engine::TvDao;
use tvdao::errors::TvDaoError;
use tvdao::identity::Identity;

fn id(n: u64) -> Identity {
    Identity { w0: n, w1: 0, w2: 0, w3: 0 }
}

fn store_with_earnings() -> TvDao {
    let mut d = TvDao::initialize_dao_state(id(1));
    d.submit_channel(id(2), "News".to_string(), "https://example.com".to_string(), 1000).unwrap();
    d.vote_price(id(100), 0, 2, 1100).unwrap();
    d.finalize_price(0, 2801).unwrap();
    d.pay_for_channel(id(50), 0, 3000).unwrap();
    d
}

#[test]
fn claim_by_non_broadcaster_rejected() {
    let mut d = store_with_earnings();
    assert_eq!(d.claim_earnings(id(99), 0), Err(TvDaoError::UnauthorizedClaimer));
    assert_eq!(d.channels[0].total_revenue_collected, 1_400_000_000);
}

#[test]
fn claim_by_non_broadcaster_rejected_with_empty_balance() {
    let mut d = TvDao::initialize_dao_state(id(1));
    d.submit_channel(id(2), "News".to_string(), "https://example.com".to_string(), 1000).unwrap();
    assert_eq!(d.claim_earnings(id(99), 0), Err(TvDaoError::UnauthorizedClaimer));
}

#[test]
fn claim_with_no_earnings_rejected() {
    let mut d = TvDao::initialize_dao_state(id(1));
    d.submit_channel(id(2), "News".to_string(), "https://example.com".to_string(), 1000).unwrap();
    assert_eq!(d.claim_earnings(id(2), 0), Err(TvDaoError::NoEarningsToClaim));
}

#[test]
fn claim_zeroes_balance_and_reports_it() {
    let mut d = store_with_earnings();
    assert_eq!(d.claim_earnings(id(2), 0), Ok(1_400_000_000));
    assert_eq!(d.channels[0].total_revenue_collected, 0);
    assert_eq!(d.claim_earnings(id(2), 0), Err(TvDaoError::NoEarningsToClaim));
}
