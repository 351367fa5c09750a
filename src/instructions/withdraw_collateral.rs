//! Taking the collateral back out of a position that has ended.
use vstd::prelude::*;

use crate::address::Address;
use crate::errors::ProtocolError;
use crate::state::position::{Position, PositionModel, PositionStatus};

verus! {

/// The records a collateral withdrawal reads and writes.
pub struct WithdrawCollateral {
    /// The position's owner.
    pub user: Address,
    pub position: Position,
    /// What the position's collateral vault holds.
    pub collateral_vault_balance: u64,
}

impl WithdrawCollateral {
    /// The collateral paid out, or why the withdrawal fails.
    pub open spec fn withdraw_result(&self) -> Result<u64, ProtocolError> {
        let position = self.position@;
        if position.owner != self.user {
            Err(ProtocolError::InvalidOwner)
        } else if position.status == PositionStatus::Active {
            Err(ProtocolError::PositionStillActive)
        } else if position.collateral_amount > self.collateral_vault_balance {
            Err(ProtocolError::WithdrawalFailed)
        } else {
            Ok(position.collateral_amount)
        }
    }

    /// Empties the collateral of a closed or liquidated position and returns
    /// the amount the host moves from the vault to the owner (zero when there
    /// is none); the host then deletes the position.
    ///
    /// Fails, changing nothing, with `InvalidOwner` for another user,
    /// `PositionStillActive` while the position is active, and
    /// `WithdrawalFailed` when the vault holds less than the collateral.
    pub fn withdraw(&mut self) -> (r: Result<u64, ProtocolError>)
        ensures
            r == old(self).withdraw_result(),
            r is Err ==> *final(self) == *old(self),
            r is Ok ==> final(self).position@ == (PositionModel {
                collateral_amount: 0,
                ..old(self).position@
            }),
            final(self).user == old(self).user,
            final(self).collateral_vault_balance == old(self).collateral_vault_balance,
    {
        if !self.position.owner().same(&self.user) {
            return Err(ProtocolError::InvalidOwner);
        }
        if self.position.is_active() {
            return Err(ProtocolError::PositionStillActive);
        }
        if self.position.collateral_amount() > self.collateral_vault_balance {
            return Err(ProtocolError::WithdrawalFailed);
        }
        self.position.take_collateral()
    }
}

} // verus!
