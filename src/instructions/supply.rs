//! A liquidity provider supplying the base asset to the pool.
use vstd::prelude::*;

use crate::address::Address;
use crate::errors::ProtocolError;
use crate::state::lending_vault::{LendingVault, LendingVaultModel};
use crate::state::lp_position::LpPosition;

verus! {

/// The records a supply reads and writes.
pub struct Supply {
    /// The provider.
    pub signer: Address,
    pub lending_vault: LendingVault,
    /// The provider's record; all zero when it was just created.
    pub lp_position: LpPosition,
    /// Unix time of the operation.
    pub now: i64,
}

impl Supply {
    /// The provider's record as the supply finds it, before the principal grows.
    pub open spec fn prepared(&self) -> LpPosition {
        self.lp_position.before_supply(self.signer, self.lending_vault@.interest_rate_bps, self.now)
    }

    /// Why supplying `amount` fails, if it does.
    pub open spec fn supply_error(&self, amount: u64) -> Option<ProtocolError> {
        if !self.lp_position.lp.is_zero_spec() && self.lp_position.lp != self.signer {
            Some(ProtocolError::InvalidOwner)
        } else if self.prepared().supplied_amount + amount > u64::MAX
            || self.lending_vault@.total_supplied + amount > u64::MAX {
            Some(ProtocolError::MathOverflow)
        } else {
            None
        }
    }

    /// The provider's record after supplying `amount`.
    pub open spec fn lp_after(&self, amount: u64) -> LpPosition {
        LpPosition {
            supplied_amount: (self.prepared().supplied_amount + amount) as u64,
            ..self.prepared()
        }
    }

    /// Records `amount` of the base asset supplied by the provider; the host
    /// then moves it from the provider into the pool's custody. Interest
    /// earned so far is accrued first, so a new principal never earns for
    /// time before it was supplied.
    ///
    /// Fails, changing nothing, with `InvalidOwner` on another provider's
    /// record and with `MathOverflow` when a total would not fit in a `u64`.
    pub fn supply(&mut self, amount: u64) -> (r: Result<(), ProtocolError>)
        ensures
            match old(self).supply_error(amount) {
                Some(e) => r == Err::<(), ProtocolError>(e) && *final(self) == *old(self),
                None => {
                    &&& r is Ok
                    &&& final(self).lp_position == old(self).lp_after(amount)
                    &&& final(self).lending_vault@ == (LendingVaultModel {
                        total_supplied: (old(self).lending_vault@.total_supplied + amount) as u64,
                        ..old(self).lending_vault@
                    })
                    &&& final(self).signer == old(self).signer
                    &&& final(self).now == old(self).now
                },
            },
    {
        let fresh = self.lp_position.lp.is_zero();
        if !fresh && !self.lp_position.lp.same(&self.signer) {
            return Err(ProtocolError::InvalidOwner);
        }
        let mut record = self.lp_position;
        if fresh {
            record.lp = self.signer;
            record.last_update = self.now;
        } else {
            record.accrue_interest(self.lending_vault.interest_rate_bps(), self.now);
        }
        if amount > u64::MAX - record.supplied_amount {
            return Err(ProtocolError::MathOverflow);
        }
        let mut vault = self.lending_vault;
        match vault.supply(amount) {
            Ok(()) => {},
            Err(e) => {
                return Err(e);
            },
        }
        record.supplied_amount = record.supplied_amount + amount;
        self.lp_position = record;
        self.lending_vault = vault;
        Ok(())
    }
}

} // verus!
