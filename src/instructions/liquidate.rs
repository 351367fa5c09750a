//! Liquidating an unhealthy position: anyone may call it once the position's
//! loan-to-value reaches the asset's liquidation threshold.
use vstd::prelude::*;

use crate::address::Address;
use crate::errors::ProtocolError;
use crate::state::config::{CollateralConfig, Config};
use crate::state::lending_vault::{LendingVault, LendingVaultModel};
use crate::state::position::{Position, PositionModel, PositionStatus};
use crate::utils::health::{
    calculate_liquidation_penalty, calculate_position_ltv, liquidation_penalty_result,
    position_ltv_result,
};
use crate::utils::oracle::{oracle_read_result, read_oracle_price};

verus! {

/// How the proceeds of a liquidation are shared out.
#[derive(Clone, Copy, Debug, PartialEq, Eq, Structural)]
pub struct LiquidationPayout {
    /// Debt repaid to the pool ledger.
    pub repaid: u64,
    /// The liquidator's penalty share.
    pub penalty: u64,
    /// What is left for the position's owner.
    pub remainder: u64,
}

/// `proceeds − debt − penalty`, or zero when that is negative.
pub open spec fn remainder_after(proceeds: u64, debt: u64, penalty: u64) -> u64 {
    if proceeds - debt - penalty > 0 {
        (proceeds - debt - penalty) as u64
    } else {
        0
    }
}

/// The records a liquidation reads and writes.
pub struct Liquidate {
    /// The signer liquidating the position.
    pub liquidator: Address,
    pub config: Config,
    pub position: Position,
    pub lending_vault: LendingVault,
    pub collateral_config: CollateralConfig,
    /// The price feed account handed in, and its bytes.
    pub price_oracle: Address,
    pub oracle_data: Vec<u8>,
    /// Unix time of the operation.
    pub now: i64,
}

impl Liquidate {
    /// Why a liquidation fails before the position's health is looked at.
    pub open spec fn guard_error(&self) -> Option<ProtocolError> {
        let collateral = self.collateral_config@;
        if self.position@.status != PositionStatus::Active {
            Some(ProtocolError::PositionNotActive)
        } else if collateral.mint != self.position@.collateral_mint {
            Some(ProtocolError::InvalidCollateralType)
        } else if self.price_oracle != collateral.oracle {
            Some(ProtocolError::OraclePriceUnavailable)
        } else if self.config.paused {
            Some(ProtocolError::ProtocolPaused)
        } else {
            None
        }
    }

    /// The position's loan-to-value at the current price.
    pub open spec fn current_ltv(&self) -> Result<u64, ProtocolError> {
        let collateral = self.collateral_config@;
        match oracle_read_result(self.oracle_data@, collateral.oracle_max_age, self.now) {
            Err(e) => Err(e),
            Ok(reading) => position_ltv_result(
                self.position@.collateral_amount,
                self.position@.debt_amount,
                reading.0,
                collateral.decimals,
            ),
        }
    }

    /// The share-out of `total_proceeds`, or why the liquidation fails.
    pub open spec fn liquidation_result(&self, total_proceeds: u64) -> Result<
        LiquidationPayout,
        ProtocolError,
    > {
        let debt = self.position@.debt_amount;
        match self.guard_error() {
            Some(e) => Err(e),
            None => match self.current_ltv() {
                Err(e) => Err(e),
                Ok(ltv) => if ltv < self.collateral_config@.liquidation_threshold {
                    Err(ProtocolError::PositionHealthy)
                } else if debt > self.lending_vault@.total_borrowed {
                    Err(ProtocolError::MathUnderflow)
                } else {
                    match liquidation_penalty_result(
                        total_proceeds,
                        self.collateral_config@.liquidation_penalty,
                    ) {
                        Err(e) => Err(e),
                        Ok(penalty) => Ok(
                            LiquidationPayout {
                                repaid: debt,
                                penalty,
                                remainder: remainder_after(total_proceeds, debt, penalty),
                            },
                        ),
                    }
                },
            },
        }
    }

    /// Liquidates an unhealthy position once its market-maker position is
    /// unwound into `total_proceeds` of the base asset: the recorded debt is
    /// repaid to the pool ledger, the liquidator is owed the asset's penalty
    /// share of the proceeds, the owner what is left after debt and penalty,
    /// and the position ends `Liquidated` with no debt.
    ///
    /// Fails, changing nothing, as `liquidation_result` says; in particular
    /// with `PositionHealthy` while the position's loan-to-value is below the
    /// liquidation threshold.
    pub fn liquidate(&mut self, total_proceeds: u64) -> (r: Result<LiquidationPayout, ProtocolError>)
        ensures
            r == old(self).liquidation_result(total_proceeds),
            old(self).guard_error() is None && old(self).current_ltv() is Ok && old(
                self,
            ).current_ltv()->Ok_0 < old(self).collateral_config@.liquidation_threshold ==> r == Err::<
                LiquidationPayout,
                ProtocolError,
            >(ProtocolError::PositionHealthy),
            r is Err ==> *final(self) == *old(self),
            r is Ok ==> {
                &&& final(self).lending_vault@ == (LendingVaultModel {
                    total_borrowed: (old(self).lending_vault@.total_borrowed
                        - old(self).position@.debt_amount) as u64,
                    ..old(self).lending_vault@
                })
                &&& final(self).position@ == (PositionModel {
                    debt_amount: 0,
                    status: PositionStatus::Liquidated,
                    ..old(self).position@
                })
                &&& final(self).liquidator == old(self).liquidator
                &&& final(self).config == old(self).config
                &&& final(self).collateral_config == old(self).collateral_config
                &&& final(self).price_oracle == old(self).price_oracle
                &&& final(self).oracle_data == old(self).oracle_data
                &&& final(self).now == old(self).now
            },
    {
        if !self.position.is_active() {
            return Err(ProtocolError::PositionNotActive);
        }
        if !self.collateral_config.mint().same(&self.position.collateral_mint()) {
            return Err(ProtocolError::InvalidCollateralType);
        }
        if !self.price_oracle.same(&self.collateral_config.oracle()) {
            return Err(ProtocolError::OraclePriceUnavailable);
        }
        if self.config.is_paused() {
            return Err(ProtocolError::ProtocolPaused);
        }
        let reading = read_oracle_price(
            self.oracle_data.as_slice(),
            self.collateral_config.oracle_max_age(),
            self.now,
        );
        let price = match reading {
            Ok(pair) => pair.0,
            Err(e) => {
                return Err(e);
            },
        };
        let debt = self.position.debt_amount();
        let ltv = match calculate_position_ltv(
            self.position.collateral_amount(),
            debt,
            price,
            self.collateral_config.decimals(),
        ) {
            Ok(v) => v,
            Err(e) => {
                return Err(e);
            },
        };
        if !self.collateral_config.is_liquidatable(ltv) {
            return Err(ProtocolError::PositionHealthy);
        }
        let mut vault = self.lending_vault;
        match vault.repay(debt) {
            Ok(()) => {},
            Err(e) => {
                return Err(e);
            },
        }
        let penalty = match calculate_liquidation_penalty(
            total_proceeds,
            self.collateral_config.liquidation_penalty(),
        ) {
            Ok(v) => v,
            Err(e) => {
                return Err(e);
            },
        };
        let remainder = if total_proceeds > debt && total_proceeds - debt > penalty {
            total_proceeds - debt - penalty
        } else {
            0
        };
        let mut position = self.position;
        match position.mark_liquidated() {
            Ok(()) => {},
            Err(e) => {
                return Err(e);
            },
        }
        self.lending_vault = vault;
        self.position = position;
        Ok(LiquidationPayout { repaid: debt, penalty, remainder })
    }
}

} // verus!
