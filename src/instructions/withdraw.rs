//! A liquidity provider taking out principal and interest, closing its record.
use vstd::prelude::*;

use crate::address::Address;
use crate::errors::ProtocolError;
use crate::instructions::supply::Supply;
use crate::state::lending_vault::{LendingVault, LendingVaultModel};
use crate::state::lp_position::{simple_interest, LpPosition};

verus! {

/// The records a withdrawal reads and writes.
pub struct Withdraw {
    /// The provider.
    pub signer: Address,
    pub lp_position: LpPosition,
    pub lending_vault: LendingVault,
    /// What the pool's custody account holds of the base asset.
    pub vault_balance: u64,
    /// Unix time of the operation.
    pub now: i64,
}

impl Withdraw {
    /// The provider's record with interest accrued up to now.
    pub open spec fn settled(&self) -> LpPosition {
        self.lp_position.accrued(self.lending_vault@.interest_rate_bps, self.now)
    }

    /// The amount paid out, or why the withdrawal fails.
    pub open spec fn withdraw_result(&self) -> Result<u64, ProtocolError> {
        let record = self.settled();
        if self.lp_position.lp != self.signer {
            Err(ProtocolError::InvalidOwner)
        } else if self.vault_balance < record.claimable_spec() {
            Err(ProtocolError::InsufficientLiquidity)
        } else if record.supplied_amount > self.lending_vault@.total_supplied {
            Err(ProtocolError::MathUnderflow)
        } else if record.supplied_amount > self.lending_vault@.available() {
            Err(ProtocolError::InsufficientLiquidity)
        } else {
            Ok(record.claimable_spec())
        }
    }

    /// Pays the provider its principal and accrued interest: returns the
    /// amount the host moves out of the pool's custody, takes the principal
    /// (not the interest, which comes from the pool's margin) off the pool's
    /// supplied total, and clears the record, which the host then deletes.
    ///
    /// Fails, changing nothing, with `InvalidOwner` on another provider's
    /// record, with `InsufficientLiquidity` when custody holds less than the
    /// payout or the principal is lent out, and with `MathUnderflow` when the
    /// pool's ledger holds less principal than the record.
    pub fn withdraw(&mut self) -> (r: Result<u64, ProtocolError>)
        ensures
            r == old(self).withdraw_result(),
            r is Err ==> *final(self) == *old(self),
            r is Ok ==> {
                &&& final(self).lending_vault@ == (LendingVaultModel {
                    total_supplied: (old(self).lending_vault@.total_supplied - old(
                        self,
                    ).settled().supplied_amount) as u64,
                    ..old(self).lending_vault@
                })
                &&& final(self).lp_position.lp.is_zero_spec()
                &&& final(self).lp_position.supplied_amount == 0
                &&& final(self).lp_position.interest_earned == 0
                &&& final(self).signer == old(self).signer
                &&& final(self).vault_balance == old(self).vault_balance
                &&& final(self).now == old(self).now
            },
    {
        if !self.lp_position.lp.same(&self.signer) {
            return Err(ProtocolError::InvalidOwner);
        }
        let mut record = self.lp_position;
        record.accrue_interest(self.lending_vault.interest_rate_bps(), self.now);
        let amount = record.claimable();
        if self.vault_balance < amount {
            return Err(ProtocolError::InsufficientLiquidity);
        }
        let mut vault = self.lending_vault;
        match vault.withdraw(record.supplied_amount) {
            Ok(()) => {},
            Err(e) => {
                return Err(e);
            },
        }
        self.lending_vault = vault;
        self.lp_position = LpPosition::empty();
        Ok(amount)
    }
}

/// Supplying `amount` into a new record and withdrawing at the same moment
/// pays back exactly `amount`, provided custody holds what was supplied.
pub proof fn lemma_supply_then_withdraw_returns_amount(
    supply: Supply,
    amount: u64,
    withdraw: Withdraw,
)
    requires
        supply.lending_vault@.wf(),
        supply.lp_position.lp.is_zero_spec(),
        supply.lp_position.supplied_amount == 0,
        supply.lp_position.interest_earned == 0,
        supply.supply_error(amount) is None,
        withdraw.signer == supply.signer,
        withdraw.lp_position == supply.lp_after(amount),
        withdraw.lending_vault@ == (LendingVaultModel {
            total_supplied: (supply.lending_vault@.total_supplied + amount) as u64,
            ..supply.lending_vault@
        }),
        withdraw.now == supply.now,
        withdraw.vault_balance >= amount,
    ensures
        withdraw.withdraw_result() == Ok::<u64, ProtocolError>(amount),
{
    let record = withdraw.settled();
    assert(simple_interest(amount, withdraw.lending_vault@.interest_rate_bps, 0) == 0) by (
    nonlinear_arith);
    assert(record.interest_earned == 0);
    assert(record.claimable_spec() == amount);
}

} // verus!
