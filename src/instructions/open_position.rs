//! Opening a leveraged position: borrow against the deposited collateral,
//! check the resulting loan-to-value, and hand the borrowed funds to the
//! market maker.
use vstd::prelude::*;

use crate::address::Address;
use crate::amm::{AmmOpen, BinLiquidityDistributionByWeight, LiquidityOneSideParameter};
use crate::errors::ProtocolError;
use crate::state::config::{CollateralConfig, Config};
use crate::state::lending_vault::{LendingVault, LendingVaultModel};
use crate::state::position::{Position, PositionModel, PositionStatus};
use crate::utils::health::{calculate_position_ltv, position_ltv_result, BPS_SCALE};
use crate::utils::oracle::{oracle_read_result, read_oracle_price};

verus! {

/// `collateral × leverage / 10 000`, failing on overflow or a zero result.
pub open spec fn borrow_amount_result(collateral_amount: u64, leverage: u64) -> Result<
    u64,
    ProtocolError,
> {
    if collateral_amount * leverage > u64::MAX {
        Err(ProtocolError::MathOverflow)
    } else if collateral_amount * leverage / 10_000int == 0 {
        Err(ProtocolError::InvalidAmount)
    } else {
        Ok((collateral_amount * leverage / 10_000int) as u64)
    }
}

/// The records an opening reads and writes.
pub struct OpenPosition {
    /// The signer opening the position.
    pub user: Address,
    pub config: Config,
    pub position: Position,
    pub lending_vault: LendingVault,
    pub collateral_config: CollateralConfig,
    /// The price feed account handed in, and its bytes.
    pub price_oracle: Address,
    pub oracle_data: Vec<u8>,
    /// The fresh market-maker position that will hold the borrowed funds.
    pub met_position: Address,
    /// Unix time of the operation.
    pub now: i64,
}

impl OpenPosition {
    /// The amount an opening at `leverage` borrows, or why it fails.
    pub open spec fn open_result(&self, leverage: u64) -> Result<u64, ProtocolError> {
        let position = self.position@;
        let collateral = self.collateral_config@;
        if position.owner != self.user {
            Err(ProtocolError::InvalidOwner)
        } else if position.status != PositionStatus::Active {
            Err(ProtocolError::PositionNotActive)
        } else if !collateral.enabled || collateral.mint != position.collateral_mint {
            Err(ProtocolError::InvalidCollateralType)
        } else if self.price_oracle != collateral.oracle {
            Err(ProtocolError::OraclePriceUnavailable)
        } else if self.config.paused {
            Err(ProtocolError::ProtocolPaused)
        } else {
            match borrow_amount_result(position.collateral_amount, leverage) {
                Err(e) => Err(e),
                Ok(borrow) => if borrow > self.lending_vault@.available() {
                    Err(ProtocolError::InsufficientLiquidity)
                } else {
                    match oracle_read_result(self.oracle_data@, collateral.oracle_max_age, self.now) {
                        Err(e) => Err(e),
                        Ok(reading) => match position_ltv_result(
                            position.collateral_amount,
                            borrow,
                            reading.0,
                            collateral.decimals,
                        ) {
                            Err(e) => Err(e),
                            Ok(ltv) => if ltv > collateral.max_ltv {
                                Err(ProtocolError::ExceedsMaxLTV)
                            } else {
                                Ok(borrow)
                            },
                        },
                    }
                },
            }
        }
    }

    /// Opens a leveraged position: borrows `collateral × leverage / 10 000`
    /// (leverage in basis points, 10 000 = 1×) from the pool, checks the
    /// position's loan-to-value at the current price against the asset's
    /// largest, records the debt, and returns the market-maker deposit of the
    /// borrowed funds over the given bins.
    ///
    /// Fails, changing nothing, as `open_result` says: on a position of
    /// another user or not active, a disabled asset or the parameters of
    /// another asset, a price feed other than
    /// the asset's, a paused protocol, an overflowing or zero borrow, too
    /// little liquidity, an unreadable or stale price, or an LTV above the
    /// asset's largest.
    pub fn open(
        &mut self,
        leverage: u64,
        lower_bin_id: i32,
        width: i32,
        active_id: i32,
        max_active_bin_slippage: i32,
        bin_liquidity_dist: Vec<BinLiquidityDistributionByWeight>,
    ) -> (r: Result<AmmOpen, ProtocolError>)
        ensures
            match old(self).open_result(leverage) {
                Err(e) => r == Err::<AmmOpen, ProtocolError>(e),
                Ok(borrow) => {
                    &&& r is Ok
                    &&& r->Ok_0.lower_bin_id == lower_bin_id
                    &&& r->Ok_0.width == width
                    &&& r->Ok_0.liquidity.amount == borrow
                    &&& r->Ok_0.liquidity.active_id == active_id
                    &&& r->Ok_0.liquidity.max_active_bin_slippage == max_active_bin_slippage
                    &&& r->Ok_0.liquidity.bin_liquidity_dist@ == bin_liquidity_dist@
                    &&& final(self).lending_vault@ == (LendingVaultModel {
                        total_borrowed: (old(self).lending_vault@.total_borrowed + borrow) as u64,
                        ..old(self).lending_vault@
                    })
                    &&& final(self).position@ == (PositionModel {
                        debt_amount: borrow,
                        meteora_position: old(self).met_position,
                        ..old(self).position@
                    })
                },
            },
            r is Err ==> *final(self) == *old(self),
            r is Err ==> final(self).lending_vault@ == old(self).lending_vault@,
            final(self).user == old(self).user,
            final(self).config == old(self).config,
            final(self).collateral_config == old(self).collateral_config,
            final(self).price_oracle == old(self).price_oracle,
            final(self).oracle_data == old(self).oracle_data,
            final(self).met_position == old(self).met_position,
            final(self).now == old(self).now,
    {
        if !self.position.owner().same(&self.user) {
            return Err(ProtocolError::InvalidOwner);
        }
        if !self.position.is_active() {
            return Err(ProtocolError::PositionNotActive);
        }
        if !self.collateral_config.is_enabled() || !self.collateral_config.mint().same(
            &self.position.collateral_mint(),
        ) {
            return Err(ProtocolError::InvalidCollateralType);
        }
        if !self.price_oracle.same(&self.collateral_config.oracle()) {
            return Err(ProtocolError::OraclePriceUnavailable);
        }
        if self.config.is_paused() {
            return Err(ProtocolError::ProtocolPaused);
        }
        let collateral_amount = self.position.collateral_amount();
        if leverage != 0 && collateral_amount > u64::MAX / leverage {
            assert(collateral_amount * leverage > u64::MAX) by (nonlinear_arith)
                requires
                    leverage > 0,
                    collateral_amount > u64::MAX / leverage,
            ;
            return Err(ProtocolError::MathOverflow);
        }
        assert(collateral_amount * leverage <= u64::MAX) by (nonlinear_arith)
            requires
                leverage == 0 || collateral_amount <= u64::MAX / leverage,
        ;
        let borrow_amount = collateral_amount * leverage / BPS_SCALE;
        if borrow_amount == 0 {
            return Err(ProtocolError::InvalidAmount);
        }
        let mut vault = self.lending_vault;
        match vault.borrow(borrow_amount) {
            Ok(()) => {},
            Err(e) => {
                return Err(e);
            },
        }
        let reading = read_oracle_price(
            self.oracle_data.as_slice(),
            self.collateral_config.oracle_max_age(),
            self.now,
        );
        let price = match reading {
            Ok(pair) => pair.0,
            Err(e) => {
                return Err(e);
            },
        };
        let ltv = match calculate_position_ltv(
            collateral_amount,
            borrow_amount,
            price,
            self.collateral_config.decimals(),
        ) {
            Ok(v) => v,
            Err(e) => {
                return Err(e);
            },
        };
        if !self.collateral_config.validate_ltv(ltv) {
            return Err(ProtocolError::ExceedsMaxLTV);
        }
        let mut position = self.position;
        match position.record_debt(borrow_amount, self.met_position) {
            Ok(()) => {},
            Err(e) => {
                return Err(e);
            },
        }
        self.lending_vault = vault;
        self.position = position;
        Ok(
            AmmOpen {
                lower_bin_id,
                width,
                liquidity: LiquidityOneSideParameter {
                    amount: borrow_amount,
                    active_id,
                    max_active_bin_slippage,
                    bin_liquidity_dist,
                },
            },
        )
    }
}

} // verus!
