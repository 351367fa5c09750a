//! Registering a collateral asset and its risk parameters.
use vstd::prelude::*;

use crate::address::Address;
use crate::errors::ProtocolError;
use crate::state::config::{CollateralConfig, CollateralConfigModel, Config};

verus! {

/// The records a registration reads.
pub struct RegisterCollateral {
    /// The signer.
    pub authority: Address,
    pub config: Config,
    /// The collateral token's mint and its decimals.
    pub mint: Address,
    pub mint_decimals: u8,
}

impl RegisterCollateral {
    /// The enabled risk parameters of the mint.
    ///
    /// Fails with `Unauthorized` unless the signer is the protocol's
    /// authority, then with `InvalidLiquidationThreshold` unless
    /// `liquidation_threshold > max_ltv`, then with `InvalidAmount` when
    /// `liquidation_penalty` exceeds 2000 basis points.
    pub fn register(
        &self,
        oracle: Address,
        max_ltv: u16,
        liquidation_threshold: u16,
        liquidation_penalty: u16,
        min_deposit: u64,
        interest_rate_bps: u16,
        oracle_max_age: u64,
    ) -> (r: Result<CollateralConfig, ProtocolError>)
        ensures
            self.authority != self.config.authority ==> r == Err::<CollateralConfig, ProtocolError>(
                ProtocolError::Unauthorized,
            ),
            self.authority == self.config.authority && liquidation_threshold <= max_ltv ==> r
                == Err::<CollateralConfig, ProtocolError>(
                ProtocolError::InvalidLiquidationThreshold,
            ),
            self.authority == self.config.authority && liquidation_threshold > max_ltv
                && liquidation_penalty > 2000 ==> r == Err::<CollateralConfig, ProtocolError>(
                ProtocolError::InvalidAmount,
            ),
            r is Ok <==> self.authority == self.config.authority && liquidation_threshold > max_ltv
                && liquidation_penalty <= 2000,
            r is Ok ==> r->Ok_0@ == (CollateralConfigModel {
                mint: self.mint,
                oracle,
                max_ltv,
                liquidation_threshold,
                liquidation_penalty,
                min_deposit,
                interest_rate_bps,
                oracle_max_age,
                decimals: self.mint_decimals,
                enabled: true,
            }),
    {
        if !self.authority.same(&self.config.authority) {
            return Err(ProtocolError::Unauthorized);
        }
        CollateralConfig::new(
            self.mint,
            oracle,
            max_ltv,
            liquidation_threshold,
            liquidation_penalty,
            min_deposit,
            interest_rate_bps,
            oracle_max_age,
            self.mint_decimals,
        )
    }
}

} // verus!
