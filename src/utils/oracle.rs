//! Reading and checking price data. The current time is an argument: the
//! caller reads the clock once per operation and hands it in.
use vstd::prelude::*;

use crate::errors::ProtocolError;
use crate::state::mock_oracle::{is_oracle_record, record_price, record_timestamp, MockOracle};

verus! {

/// A price older than `max_age` seconds at time `now` is stale.
pub open spec fn is_stale_at(timestamp: i64, max_age: u64, now: i64) -> bool {
    now - timestamp > max_age
}

/// What reading the price feed record `data` at time `now` gives.
pub open spec fn oracle_read_result(data: Seq<u8>, max_age: u64, now: i64) -> Result<
    (u64, i64),
    ProtocolError,
> {
    if !is_oracle_record(data) || record_price(data) == 0 {
        Err(ProtocolError::OraclePriceUnavailable)
    } else if is_stale_at(record_timestamp(data), max_age, now) {
        Err(ProtocolError::OracleStale)
    } else {
        Ok((record_price(data), record_timestamp(data)))
    }
}

/// Whether a price published at `oracle_timestamp` is older than
/// `max_age_seconds` at `current_timestamp`.
pub fn is_oracle_stale(oracle_timestamp: i64, max_age_seconds: u64, current_timestamp: i64) -> (r:
    bool)
    ensures
        r == is_stale_at(oracle_timestamp, max_age_seconds, current_timestamp),
{
    let age = current_timestamp as i128 - oracle_timestamp as i128;
    age > max_age_seconds as i128
}

/// Checks a price and its publication time: a zero price is unavailable,
/// an old one is stale.
pub fn validate_oracle_price(price: u64, timestamp: i64, max_age: u64, current_timestamp: i64) -> (r:
    Result<(), ProtocolError>)
    ensures
        price == 0 ==> r == Err::<(), ProtocolError>(ProtocolError::OraclePriceUnavailable),
        price != 0 && is_stale_at(timestamp, max_age, current_timestamp) ==> r == Err::<
            (),
            ProtocolError,
        >(ProtocolError::OracleStale),
        price != 0 && !is_stale_at(timestamp, max_age, current_timestamp) ==> r is Ok,
{
    if price == 0 {
        return Err(ProtocolError::OraclePriceUnavailable);
    }
    if is_oracle_stale(timestamp, max_age, current_timestamp) {
        return Err(ProtocolError::OracleStale);
    }
    Ok(())
}

/// Reads `(price, timestamp)` from the bytes of a price feed account.
///
/// Fails with `OraclePriceUnavailable` when the bytes are not a price feed
/// record or the price is zero, and with `OracleStale` when the price is older
/// than `max_age` seconds at `current_timestamp`.
pub fn read_oracle_price(oracle_data: &[u8], max_age: u64, current_timestamp: i64) -> (r: Result<
    (u64, i64),
    ProtocolError,
>)
    ensures
        r == oracle_read_result(oracle_data@, max_age, current_timestamp),
        !is_oracle_record(oracle_data@) ==> r == Err::<(u64, i64), ProtocolError>(
            ProtocolError::OraclePriceUnavailable,
        ),
        is_oracle_record(oracle_data@) && record_price(oracle_data@) == 0 ==> r == Err::<
            (u64, i64),
            ProtocolError,
        >(ProtocolError::OraclePriceUnavailable),
        is_oracle_record(oracle_data@) && record_price(oracle_data@) != 0 && is_stale_at(
            record_timestamp(oracle_data@),
            max_age,
            current_timestamp,
        ) ==> r == Err::<(u64, i64), ProtocolError>(ProtocolError::OracleStale),
{
    let feed = match MockOracle::decode(oracle_data) {
        Ok(feed) => feed,
        Err(e) => {
            return Err(e);
        },
    };
    match validate_oracle_price(feed.price, feed.timestamp, max_age, current_timestamp) {
        Ok(()) => Ok((feed.price, feed.timestamp)),
        Err(e) => Err(e),
    }
}

/// A price reading with its confidence interval and a validity flag.
#[derive(Clone, Copy, Debug)]
pub struct PriceData {
    /// Price with six decimals.
    pub price: u64,
    pub confidence: u64,
    /// Unix time of publication.
    pub timestamp: i64,
    pub is_valid: bool,
}

impl PriceData {
    /// A valid reading.
    pub fn new(price: u64, confidence: u64, timestamp: i64) -> (r: PriceData)
        ensures
            r.price == price,
            r.confidence == confidence,
            r.timestamp == timestamp,
            r.is_valid,
    {
        PriceData { price, confidence, timestamp, is_valid: true }
    }

    /// Whether the reading is older than `max_age` seconds at `current_timestamp`.
    pub fn is_stale(&self, max_age: u64, current_timestamp: i64) -> (r: bool)
        ensures
            r == is_stale_at(self.timestamp, max_age, current_timestamp),
    {
        is_oracle_stale(self.timestamp, max_age, current_timestamp)
    }

    /// Accepts a valid, fresh, non-zero reading: an invalid one is unavailable,
    /// then an old one is stale, then a zero price is unavailable.
    pub fn validate(&self, max_age: u64, current_timestamp: i64) -> (r: Result<(), ProtocolError>)
        ensures
            !self.is_valid ==> r == Err::<(), ProtocolError>(ProtocolError::OraclePriceUnavailable),
            self.is_valid && is_stale_at(self.timestamp, max_age, current_timestamp) ==> r == Err::<
                (),
                ProtocolError,
            >(ProtocolError::OracleStale),
            self.is_valid && !is_stale_at(self.timestamp, max_age, current_timestamp) && self.price
                == 0 ==> r == Err::<(), ProtocolError>(ProtocolError::OraclePriceUnavailable),
            r is Ok <==> self.is_valid && !is_stale_at(self.timestamp, max_age, current_timestamp)
                && self.price != 0,
    {
        if !self.is_valid {
            return Err(ProtocolError::OraclePriceUnavailable);
        }
        if self.is_stale(max_age, current_timestamp) {
            return Err(ProtocolError::OracleStale);
        }
        if self.price == 0 {
            return Err(ProtocolError::OraclePriceUnavailable);
        }
        Ok(())
    }
}

} // verus!
