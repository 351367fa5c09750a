//! Closing a position: unwind the market-maker position into the pool, then
//! settle the debt from the ledger and end the position.
use vstd::prelude::*;

use crate::address::Address;
use crate::errors::ProtocolError;
use crate::state::config::Config;
use crate::state::lending_vault::{LendingVault, LendingVaultModel};
use crate::state::position::{Position, PositionModel, PositionStatus};

verus! {

/// What the host reports after each market-maker call of an unwind.
#[derive(Clone, Copy, Debug, PartialEq, Eq, Structural)]
pub enum UnwindEvent {
    Started,
    LiquidityRemoved,
    /// Fees are claimed; `other_asset_balance` of the non-borrowed token is
    /// left in the temporary account.
    FeesClaimed { other_asset_balance: u64 },
    Swapped,
    PositionClosed,
}

/// The next market-maker call of an unwind, or `Settle` when it is over.
#[derive(Clone, Copy, Debug, PartialEq, Eq, Structural)]
pub enum UnwindStep {
    /// Remove `bps` basis points of the liquidity in the bins, sending the
    /// borrowed token to the pool and the other to a temporary account.
    RemoveLiquidity { from_bin_id: i32, to_bin_id: i32, bps: u16 },
    ClaimFee,
    /// Swap the other token back into the borrowed one.
    Swap { amount_in: u64, min_amount_out: u64 },
    /// Close the empty market-maker position, returning its deposit to the user.
    ClosePosition,
    Settle,
}

/// The unwind of a market-maker position over `from_bin_id ..= to_bin_id`:
/// remove all liquidity, claim fees, swap any leftover of the other token
/// back (with no minimum output), close the position, then settle.
pub fn next_unwind_step(from_bin_id: i32, to_bin_id: i32, event: UnwindEvent) -> (r: UnwindStep)
    ensures
        event == UnwindEvent::Started ==> r == (UnwindStep::RemoveLiquidity {
            from_bin_id,
            to_bin_id,
            bps: 10_000,
        }),
        event == UnwindEvent::LiquidityRemoved ==> r == UnwindStep::ClaimFee,
        event matches UnwindEvent::FeesClaimed { other_asset_balance } ==> r == (if other_asset_balance
            > 0 {
            UnwindStep::Swap { amount_in: other_asset_balance, min_amount_out: 0 }
        } else {
            UnwindStep::ClosePosition
        }),
        event == UnwindEvent::Swapped ==> r == UnwindStep::ClosePosition,
        event == UnwindEvent::PositionClosed ==> r == UnwindStep::Settle,
{
    match event {
        UnwindEvent::Started => UnwindStep::RemoveLiquidity { from_bin_id, to_bin_id, bps: 10_000 },
        UnwindEvent::LiquidityRemoved => UnwindStep::ClaimFee,
        UnwindEvent::FeesClaimed { other_asset_balance } => {
            if other_asset_balance > 0 {
                UnwindStep::Swap { amount_in: other_asset_balance, min_amount_out: 0 }
            } else {
                UnwindStep::ClosePosition
            }
        },
        UnwindEvent::Swapped => UnwindStep::ClosePosition,
        UnwindEvent::PositionClosed => UnwindStep::Settle,
    }
}

/// The records a voluntary close reads and writes.
pub struct ClosePosition {
    /// The signer closing the position.
    pub user: Address,
    pub config: Config,
    pub position: Position,
    pub lending_vault: LendingVault,
}

impl ClosePosition {
    /// Why a close fails, if it does.
    pub open spec fn close_error(&self) -> Option<ProtocolError> {
        if self.position@.owner != self.user {
            Some(ProtocolError::InvalidOwner)
        } else if self.position@.status != PositionStatus::Active {
            Some(ProtocolError::PositionNotActive)
        } else if self.config.paused {
            Some(ProtocolError::ProtocolPaused)
        } else if self.position@.debt_amount > self.lending_vault@.total_borrowed {
            Some(ProtocolError::MathUnderflow)
        } else {
            None
        }
    }

    /// Settles a closed-out position once its market-maker position is
    /// unwound: the recorded debt is repaid to the pool ledger (whatever the
    /// unwind brought in), and the position ends `Closed` with no debt.
    /// Returns the debt repaid.
    ///
    /// Fails, changing nothing, on a position of another user or not active,
    /// a paused protocol, or a debt larger than the pool's recorded lending
    /// (`MathUnderflow`).
    pub fn close(&mut self) -> (r: Result<u64, ProtocolError>)
        ensures
            match old(self).close_error() {
                Some(e) => r == Err::<u64, ProtocolError>(e) && *final(self) == *old(self),
                None => {
                    &&& r == Ok::<u64, ProtocolError>(old(self).position@.debt_amount)
                    &&& final(self).lending_vault@ == (LendingVaultModel {
                        total_borrowed: (old(self).lending_vault@.total_borrowed
                            - old(self).position@.debt_amount) as u64,
                        ..old(self).lending_vault@
                    })
                    &&& final(self).position@ == (PositionModel {
                        debt_amount: 0,
                        status: PositionStatus::Closed,
                        ..old(self).position@
                    })
                    &&& final(self).user == old(self).user
                    &&& final(self).config == old(self).config
                },
            },
    {
        if !self.position.owner().same(&self.user) {
            return Err(ProtocolError::InvalidOwner);
        }
        if !self.position.is_active() {
            return Err(ProtocolError::PositionNotActive);
        }
        if self.config.is_paused() {
            return Err(ProtocolError::ProtocolPaused);
        }
        let debt = self.position.debt_amount();
        let mut vault = self.lending_vault;
        match vault.repay(debt) {
            Ok(()) => {},
            Err(e) => {
                return Err(e);
            },
        }
        let mut position = self.position;
        match position.mark_closed() {
            Ok(()) => {},
            Err(e) => {
                return Err(e);
            },
        }
        self.lending_vault = vault;
        self.position = position;
        Ok(debt)
    }
}

} // verus!
