use metlev_engine::state::mock_oracle::MockOracle;
use metlev_engine::utils::oracle::{
    is_oracle_stale, read_oracle_price, validate_oracle_price, PriceData,
};
use metlev_engine::ProtocolError;

const NOW: i64 = 1_700_000_000;

fn feed_bytes(price: u64, timestamp: i64) -> Vec<u8> {
    let mut data = vec![208u8, 74, 71, 99, 160, 22, 158, 240];
    data.extend_from_slice(&[7u8; 32]);
    data.extend_from_slice(&price.to_le_bytes());
    data.push(6);
    data.extend_from_slice(&timestamp.to_le_bytes());
    data.push(254);
    data
}

#[test]
fn test_is_oracle_stale() {
    let current = NOW;

    // Not stale (10 seconds old, max 60)
    assert!(!is_oracle_stale(current - 10, 60, current));

    // Stale (70 seconds old, max 60)
    assert!(is_oracle_stale(current - 70, 60, current));
}

#[test]
fn test_price_data_validation() {
    let current = NOW;
    let price_data = PriceData::new(100_000_000, 10_000, current);

    // Should be valid (fresh)
    assert!(price_data.validate(60, current).is_ok());

    // Should be stale
    let old_price = PriceData::new(100_000_000, 10_000, current - 120);
    assert!(old_price.validate(60, current).is_err());
}

#[test]
fn staleness_boundary_and_extremes() {
    assert!(!is_oracle_stale(NOW - 60, 60, NOW));
    assert!(is_oracle_stale(NOW - 61, 60, NOW));
    // a price from the future is fresh
    assert!(!is_oracle_stale(NOW + 100, 0, NOW));
    // the age is computed without overflow
    assert!(is_oracle_stale(i64::MIN, u64::MAX / 2, i64::MAX));
    assert!(!is_oracle_stale(i64::MIN, u64::MAX, i64::MAX));
}

#[test]
fn validate_oracle_price_errors() {
    assert_eq!(validate_oracle_price(0, NOW, 60, NOW), Err(ProtocolError::OraclePriceUnavailable));
    assert_eq!(validate_oracle_price(0, NOW - 600, 60, NOW), Err(ProtocolError::OraclePriceUnavailable));
    assert_eq!(validate_oracle_price(5, NOW - 61, 60, NOW), Err(ProtocolError::OracleStale));
    assert_eq!(validate_oracle_price(5, NOW - 60, 60, NOW), Ok(()));
}

#[test]
fn price_data_error_order() {
    let mut invalid = PriceData::new(100, 1, NOW - 1_000);
    invalid.is_valid = false;
    assert_eq!(invalid.validate(60, NOW), Err(ProtocolError::OraclePriceUnavailable));
    let zero = PriceData::new(0, 1, NOW);
    assert_eq!(zero.validate(60, NOW), Err(ProtocolError::OraclePriceUnavailable));
    let zero_and_old = PriceData::new(0, 1, NOW - 1_000);
    assert_eq!(zero_and_old.validate(60, NOW), Err(ProtocolError::OracleStale));
    assert!(zero_and_old.is_stale(60, NOW));
    assert_eq!(zero_and_old.confidence, 1);
}

#[test]
fn feed_record_decodes() {
    let feed = MockOracle::decode(&feed_bytes(123_456_789, -42)).unwrap();
    assert_eq!(feed.price, 123_456_789);
    assert_eq!(feed.timestamp, -42);
    assert_eq!(feed.decimals, 6);
    assert_eq!(feed.bump, 254);
    assert_eq!(feed.authority.bytes, [7u8; 32]);
    let extremes = MockOracle::decode(&feed_bytes(u64::MAX, i64::MIN)).unwrap();
    assert_eq!(extremes.price, u64::MAX);
    assert_eq!(extremes.timestamp, i64::MIN);
    let top = MockOracle::decode(&feed_bytes(1, i64::MAX)).unwrap();
    assert_eq!(top.timestamp, i64::MAX);
}

#[test]
fn malformed_feed_is_unavailable() {
    let mut data = feed_bytes(100, NOW);
    data.pop();
    assert!(MockOracle::decode(&data).is_err());
    assert_eq!(read_oracle_price(&data, 60, NOW), Err(ProtocolError::OraclePriceUnavailable));
    let mut other_tag = feed_bytes(100, NOW);
    other_tag[3] = 0;
    assert_eq!(read_oracle_price(&other_tag, 60, NOW), Err(ProtocolError::OraclePriceUnavailable));
    assert_eq!(read_oracle_price(&[], 60, NOW), Err(ProtocolError::OraclePriceUnavailable));
}

#[test]
fn read_oracle_price_outcomes() {
    assert_eq!(read_oracle_price(&feed_bytes(100_000_000, NOW - 5), 60, NOW), Ok((100_000_000, NOW - 5)));
    assert_eq!(read_oracle_price(&feed_bytes(100_000_000, NOW - 61), 60, NOW), Err(ProtocolError::OracleStale));
    assert_eq!(read_oracle_price(&feed_bytes(0, NOW), 60, NOW), Err(ProtocolError::OraclePriceUnavailable));
    // trailing bytes after the record are ignored
    let mut longer = feed_bytes(9, NOW);
    longer.extend_from_slice(&[1, 2, 3]);
    assert_eq!(read_oracle_price(&longer, 60, NOW), Ok((9, NOW)));
}
