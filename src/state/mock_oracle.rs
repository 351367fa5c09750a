//! The price feed record that the protocol reads, and its account layout:
//! an eight-byte tag, then `authority` (32 bytes), `price` (u64, little-endian),
//! `decimals` (u8), `timestamp` (i64, little-endian) and `bump` (u8).
use vstd::prelude::*;

use crate::address::Address;
use crate::errors::ProtocolError;

verus! {

/// Length of a price feed record in bytes, tag included.
pub const MOCK_ORACLE_LEN: usize = 58;

/// A price feed: a six-decimal price and the time it was published.
#[derive(Clone, Copy, Debug)]
pub struct MockOracle {
    pub authority: Address,
    pub price: u64,
    pub decimals: u8,
    pub timestamp: i64,
    pub bump: u8,
}

/// The unsigned integer held little-endian in `s[off .. off + 8]`.
pub open spec fn le_u64_at(s: Seq<u8>, off: int) -> int {
    s[off] + s[off + 1] * 0x100 + s[off + 2] * 0x1_0000 + s[off + 3] * 0x100_0000 + s[off + 4]
        * 0x1_0000_0000 + s[off + 5] * 0x100_0000_0000 + s[off + 6] * 0x1_0000_0000_0000 + s[off
        + 7] * 0x100_0000_0000_0000
}

/// The two's-complement reading of 64 bits.
pub open spec fn i64_of_bits(u: int) -> int {
    if u >= 0x8000_0000_0000_0000 {
        u - 0x1_0000_0000_0000_0000
    } else {
        u
    }
}

/// Whether `s` starts with the tag that marks a price feed record.
pub open spec fn has_oracle_tag(s: Seq<u8>) -> bool {
    &&& s.len() >= 8
    &&& s[0] == 208u8
    &&& s[1] == 74u8
    &&& s[2] == 71u8
    &&& s[3] == 99u8
    &&& s[4] == 160u8
    &&& s[5] == 22u8
    &&& s[6] == 158u8
    &&& s[7] == 240u8
}

/// Whether `s` holds a whole price feed record.
pub open spec fn is_oracle_record(s: Seq<u8>) -> bool {
    s.len() >= MOCK_ORACLE_LEN && has_oracle_tag(s)
}

/// The price stored in a price feed record.
pub open spec fn record_price(s: Seq<u8>) -> u64 {
    le_u64_at(s, 40) as u64
}

/// The publication time stored in a price feed record.
pub open spec fn record_timestamp(s: Seq<u8>) -> i64 {
    i64_of_bits(le_u64_at(s, 49)) as i64
}

fn read_u64_le(data: &[u8], off: usize) -> (r: u64)
    requires
        off + 8 <= data@.len(),
    ensures
        r == le_u64_at(data@, off as int),
{
    let b0 = data[off] as u64;
    let b1 = data[off + 1] as u64;
    let b2 = data[off + 2] as u64;
    let b3 = data[off + 3] as u64;
    let b4 = data[off + 4] as u64;
    let b5 = data[off + 5] as u64;
    let b6 = data[off + 6] as u64;
    let b7 = data[off + 7] as u64;
    b0 + b1 * 0x100 + b2 * 0x1_0000 + b3 * 0x100_0000 + b4 * 0x1_0000_0000 + b5 * 0x100_0000_0000
        + b6 * 0x1_0000_0000_0000 + b7 * 0x100_0000_0000_0000
}

fn read_i64_le(data: &[u8], off: usize) -> (r: i64)
    requires
        off + 8 <= data@.len(),
    ensures
        r == i64_of_bits(le_u64_at(data@, off as int)),
{
    let u = read_u64_le(data, off);
    if u >= 0x8000_0000_0000_0000 {
        let below = (u64::MAX - u) as i64;
        -below - 1
    } else {
        u as i64
    }
}

fn check_oracle_tag(data: &[u8]) -> (r: bool)
    ensures
        r == has_oracle_tag(data@),
{
    data.len() >= 8 && data[0] == 208 && data[1] == 74 && data[2] == 71 && data[3] == 99
        && data[4] == 160 && data[5] == 22 && data[6] == 158 && data[7] == 240
}

impl MockOracle {
    /// Reads a price feed record from the bytes of its account. Fails with
    /// `OraclePriceUnavailable` when the bytes are too short or carry another tag.
    pub fn decode(data: &[u8]) -> (r: Result<MockOracle, ProtocolError>)
        ensures
            r is Ok <==> is_oracle_record(data@),
            !is_oracle_record(data@) ==> r == Err::<MockOracle, ProtocolError>(
                ProtocolError::OraclePriceUnavailable,
            ),
            r is Ok ==> {
                let o = r->Ok_0;
                &&& o.authority.bytes@ == data@.subrange(8, 40)
                &&& o.price == record_price(data@)
                &&& o.decimals == data@[48]
                &&& o.timestamp == record_timestamp(data@)
                &&& o.bump == data@[57]
            },
    {
        if data.len() < MOCK_ORACLE_LEN || !check_oracle_tag(data) {
            return Err(ProtocolError::OraclePriceUnavailable);
        }
        let mut bytes = [0u8; 32];
        let mut i: usize = 0;
        while i < 32
            invariant
                0 <= i <= 32,
                data@.len() >= MOCK_ORACLE_LEN,
                bytes@.len() == 32,
                forall|j: int| 0 <= j < i ==> bytes@[j] == data@[8 + j],
            decreases 32 - i,
        {
            bytes[i] = data[8 + i];
            i = i + 1;
        }
        assert(bytes@ =~= data@.subrange(8, 40));
        Ok(
            MockOracle {
                authority: Address { bytes },
                price: read_u64_le(data, 40),
                decimals: data[48],
                timestamp: read_i64_le(data, 49),
                bump: data[57],
            },
        )
    }
}

} // verus!
