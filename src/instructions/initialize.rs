//! Setting up the protocol: its configuration and its lending pool.
use vstd::prelude::*;

use crate::address::Address;
use crate::state::config::Config;
use crate::state::lending_vault::LendingVault;

verus! {

/// Yearly supplier rate of a pool set up with the protocol, in basis points (3.5%).
pub const INITIAL_INTEREST_RATE_BPS: u16 = 350;

/// The inputs of the protocol's set-up.
pub struct Initialize {
    /// The signer, who becomes the protocol's authority.
    pub authority: Address,
    /// Unix time of the operation.
    pub now: i64,
}

impl Initialize {
    /// An unpaused configuration under the signer's authority, and an empty
    /// pool paying 3.5% a year.
    pub fn initialize(&self) -> (r: (Config, LendingVault))
        ensures
            r.0.authority == self.authority,
            !r.0.paused,
            r.1@.authority == self.authority,
            r.1@.total_supplied == 0,
            r.1@.total_borrowed == 0,
            r.1@.interest_rate_bps == 350,
            r.1@.last_update == self.now,
    {
        (
            Config::new(self.authority),
            LendingVault::new(self.authority, INITIAL_INTEREST_RATE_BPS, self.now),
        )
    }
}

} // verus!
