use architect_api::folio::{AccountStatistics, AccountSummary};
use architect_api::ids::AccountId;
use architect_api::time::UtcTimestamp;

#[test]
fn new_account_summary_is_empty() {
    let ts = UtcTimestamp { secs: 1729700837, nanos: 0 };
    let s = AccountSummary::new(AccountId(7), ts);
    assert_eq!(s.account, AccountId(7));
    assert_eq!(s.timestamp, ts);
    assert!(s.balances.is_empty());
    assert!(s.positions.is_empty());
    assert!(s.statistics.equity.is_none());
    assert!(s.statistics.yesterday_equity.is_none());
    let d = AccountStatistics::default();
    assert!(d.total_margin.is_none() && d.purchasing_power.is_none());
}
