//! Publishing a new price on a feed.
use vstd::prelude::*;

use crate::address::Address;
use crate::errors::ProtocolError;
use crate::state::config::Config;
use crate::state::mock_oracle::MockOracle;

verus! {

/// The records a price update reads and writes.
pub struct UpdateMockOracle {
    /// The signer.
    pub authority: Address,
    pub config: Config,
    pub mock_oracle: MockOracle,
    /// Unix time of the operation.
    pub now: i64,
}

impl UpdateMockOracle {
    /// Publishes `price` now. Fails with `Unauthorized`, changing nothing,
    /// unless the signer is the protocol's authority.
    pub fn update_mock_oracle(&mut self, price: u64) -> (r: Result<(), ProtocolError>)
        ensures
            r is Err <==> old(self).authority != old(self).config.authority,
            r is Err ==> r == Err::<(), ProtocolError>(ProtocolError::Unauthorized) && *final(self)
                == *old(self),
            r is Ok ==> final(self).mock_oracle == (MockOracle {
                price,
                timestamp: old(self).now,
                ..old(self).mock_oracle
            }),
            final(self).authority == old(self).authority,
            final(self).config == old(self).config,
            final(self).now == old(self).now,
    {
        if !self.authority.same(&self.config.authority) {
            return Err(ProtocolError::Unauthorized);
        }
        self.mock_oracle.price = price;
        self.mock_oracle.timestamp = self.now;
        Ok(())
    }
}

} // verus!
