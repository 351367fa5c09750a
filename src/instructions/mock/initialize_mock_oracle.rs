//! Creating a price feed for one asset.
use vstd::prelude::*;

use crate::address::Address;
use crate::errors::ProtocolError;
use crate::state::config::Config;
use crate::state::mock_oracle::MockOracle;

verus! {

/// The records a price feed's creation reads.
pub struct InitializeMockOracle {
    /// The signer.
    pub authority: Address,
    pub config: Config,
    /// The address seed of the new record.
    pub bump: u8,
    /// Unix time of the operation.
    pub now: i64,
}

impl InitializeMockOracle {
    /// A feed publishing `price` (six decimals) now. Fails with
    /// `Unauthorized` unless the signer is the protocol's authority.
    pub fn initialize_mock_oracle(&self, price: u64) -> (r: Result<MockOracle, ProtocolError>)
        ensures
            r is Err <==> self.authority != self.config.authority,
            r is Err ==> r == Err::<MockOracle, ProtocolError>(ProtocolError::Unauthorized),
            r is Ok ==> r->Ok_0 == (MockOracle {
                authority: self.authority,
                price,
                decimals: 6,
                timestamp: self.now,
                bump: self.bump,
            }),
    {
        if !self.authority.same(&self.config.authority) {
            return Err(ProtocolError::Unauthorized);
        }
        Ok(MockOracle { authority: self.authority, price, decimals: 6, timestamp: self.now, bump: self.bump })
    }
}

} // verus!
