//! The authority's changes to the protocol switch and to collateral parameters.
use vstd::prelude::*;

use crate::address::Address;
use crate::errors::ProtocolError;
use crate::state::config::{CollateralConfig, CollateralConfigModel, Config};

verus! {

/// The records a change of the pause switch reads and writes.
pub struct UpdateConfig {
    /// The signer.
    pub authority: Address,
    pub config: Config,
}

impl UpdateConfig {
    /// Pauses or resumes the protocol. Fails with `Unauthorized`, changing
    /// nothing, unless the signer is the protocol's authority.
    pub fn update_pause_state(&mut self, paused: bool) -> (r: Result<(), ProtocolError>)
        ensures
            r is Err <==> old(self).authority != old(self).config.authority,
            r is Err ==> r == Err::<(), ProtocolError>(ProtocolError::Unauthorized) && *final(self)
                == *old(self),
            r is Ok ==> final(self).config == (Config { paused, ..old(self).config }),
            final(self).authority == old(self).authority,
    {
        if !self.authority.same(&self.config.authority) {
            return Err(ProtocolError::Unauthorized);
        }
        self.config.paused = paused;
        Ok(())
    }
}

/// The records a change of one asset's parameters reads and writes.
pub struct UpdateCollateralConfig {
    /// The signer.
    pub authority: Address,
    pub config: Config,
    pub collateral_config: CollateralConfig,
}

impl UpdateCollateralConfig {
    pub open spec fn authorized(&self) -> bool {
        self.authority == self.config.authority
    }

    /// Turns the asset on or off. Fails with `Unauthorized`, changing
    /// nothing, unless the signer is the protocol's authority.
    pub fn update_enabled(&mut self, enabled: bool) -> (r: Result<(), ProtocolError>)
        ensures
            r is Ok <==> old(self).authorized(),
            r is Err ==> r == Err::<(), ProtocolError>(ProtocolError::Unauthorized) && *final(self)
                == *old(self),
            r is Ok ==> final(self).collateral_config@ == (CollateralConfigModel {
                enabled,
                ..old(self).collateral_config@
            }),
            final(self).authority == old(self).authority,
            final(self).config == old(self).config,
    {
        if !self.authority.same(&self.config.authority) {
            return Err(ProtocolError::Unauthorized);
        }
        self.collateral_config.set_enabled(enabled);
        Ok(())
    }

    /// Replaces the given LTV bounds. Fails, changing nothing, with
    /// `Unauthorized` unless the signer is the protocol's authority, then with
    /// `InvalidLiquidationThreshold` unless the resulting threshold lies
    /// strictly above the resulting largest LTV.
    pub fn update_ltv_params(&mut self, max_ltv: Option<u16>, liquidation_threshold: Option<u16>) -> (r:
        Result<(), ProtocolError>)
        ensures
            ({
                let old_config = old(self).collateral_config@;
                let new_max = match max_ltv {
                    Some(v) => v,
                    None => old_config.max_ltv,
                };
                let new_threshold = match liquidation_threshold {
                    Some(v) => v,
                    None => old_config.liquidation_threshold,
                };
                &&& !old(self).authorized() ==> r == Err::<(), ProtocolError>(
                    ProtocolError::Unauthorized,
                )
                &&& old(self).authorized() && new_threshold <= new_max ==> r == Err::<
                    (),
                    ProtocolError,
                >(ProtocolError::InvalidLiquidationThreshold)
                &&& r is Ok <==> old(self).authorized() && new_threshold > new_max
                &&& r is Ok ==> final(self).collateral_config@ == (CollateralConfigModel {
                    max_ltv: new_max,
                    liquidation_threshold: new_threshold,
                    ..old_config
                })
            }),
            r is Err ==> *final(self) == *old(self),
            final(self).authority == old(self).authority,
            final(self).config == old(self).config,
    {
        if !self.authority.same(&self.config.authority) {
            return Err(ProtocolError::Unauthorized);
        }
        let mut updated = self.collateral_config;
        match updated.set_ltv_params(max_ltv, liquidation_threshold) {
            Ok(()) => {},
            Err(e) => {
                return Err(e);
            },
        }
        self.collateral_config = updated;
        Ok(())
    }

    /// Replaces the liquidation penalty. Fails, changing nothing, with
    /// `Unauthorized` unless the signer is the protocol's authority, then with
    /// `InvalidAmount` above 2000 basis points.
    pub fn update_liquidation_penalty(&mut self, penalty: u16) -> (r: Result<(), ProtocolError>)
        ensures
            !old(self).authorized() ==> r == Err::<(), ProtocolError>(ProtocolError::Unauthorized),
            old(self).authorized() && penalty > 2000 ==> r == Err::<(), ProtocolError>(
                ProtocolError::InvalidAmount,
            ),
            r is Ok <==> old(self).authorized() && penalty <= 2000,
            r is Err ==> *final(self) == *old(self),
            r is Ok ==> final(self).collateral_config@ == (CollateralConfigModel {
                liquidation_penalty: penalty,
                ..old(self).collateral_config@
            }),
            final(self).authority == old(self).authority,
            final(self).config == old(self).config,
    {
        if !self.authority.same(&self.config.authority) {
            return Err(ProtocolError::Unauthorized);
        }
        let mut updated = self.collateral_config;
        match updated.set_liquidation_penalty(penalty) {
            Ok(()) => {},
            Err(e) => {
                return Err(e);
            },
        }
        self.collateral_config = updated;
        Ok(())
    }

    /// Replaces the smallest accepted deposit. Fails with `Unauthorized`,
    /// changing nothing, unless the signer is the protocol's authority.
    pub fn update_min_deposit(&mut self, min_deposit: u64) -> (r: Result<(), ProtocolError>)
        ensures
            r is Ok <==> old(self).authorized(),
            r is Err ==> r == Err::<(), ProtocolError>(ProtocolError::Unauthorized) && *final(self)
                == *old(self),
            r is Ok ==> final(self).collateral_config@ == (CollateralConfigModel {
                min_deposit,
                ..old(self).collateral_config@
            }),
            final(self).authority == old(self).authority,
            final(self).config == old(self).config,
    {
        if !self.authority.same(&self.config.authority) {
            return Err(ProtocolError::Unauthorized);
        }
        self.collateral_config.set_min_deposit(min_deposit);
        Ok(())
    }

    /// Points the asset at another price feed. Fails with `Unauthorized`,
    /// changing nothing, unless the signer is the protocol's authority.
    pub fn update_oracle(&mut self, oracle: Address) -> (r: Result<(), ProtocolError>)
        ensures
            r is Ok <==> old(self).authorized(),
            r is Err ==> r == Err::<(), ProtocolError>(ProtocolError::Unauthorized) && *final(self)
                == *old(self),
            r is Ok ==> final(self).collateral_config@ == (CollateralConfigModel {
                oracle,
                ..old(self).collateral_config@
            }),
            final(self).authority == old(self).authority,
            final(self).config == old(self).config,
    {
        if !self.authority.same(&self.config.authority) {
            return Err(ProtocolError::Unauthorized);
        }
        self.collateral_config.set_oracle(oracle);
        Ok(())
    }
}

} // verus!
