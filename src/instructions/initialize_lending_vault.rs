//! Setting up the lending pool under an existing configuration.
use vstd::prelude::*;

use crate::address::Address;
use crate::errors::ProtocolError;
use crate::state::config::Config;
use crate::state::lending_vault::LendingVault;

verus! {

/// Yearly supplier rate of a pool set up on its own, in basis points (0.3%).
pub const VAULT_INTEREST_RATE_BPS: u16 = 30;

/// The records the pool's set-up reads.
pub struct InitializeLendingVault {
    /// The signer.
    pub authority: Address,
    pub config: Config,
    /// Unix time of the operation.
    pub now: i64,
}

impl InitializeLendingVault {
    /// An empty pool paying 0.3% a year. Fails with `Unauthorized` unless the
    /// signer is the protocol's authority.
    pub fn initialize_lending_vault(&self) -> (r: Result<LendingVault, ProtocolError>)
        ensures
            r is Err <==> self.authority != self.config.authority,
            r is Err ==> r == Err::<LendingVault, ProtocolError>(ProtocolError::Unauthorized),
            r is Ok ==> {
                &&& r->Ok_0@.authority == self.authority
                &&& r->Ok_0@.total_supplied == 0
                &&& r->Ok_0@.total_borrowed == 0
                &&& r->Ok_0@.interest_rate_bps == 30
                &&& r->Ok_0@.last_update == self.now
            },
    {
        if !self.authority.same(&self.config.authority) {
            return Err(ProtocolError::Unauthorized);
        }
        Ok(LendingVault::new(self.authority, VAULT_INTEREST_RATE_BPS, self.now))
    }
}

} // verus!
