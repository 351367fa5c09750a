//! Protocol-wide settings and the risk parameters of each collateral asset.
use vstd::prelude::*;

use crate::address::Address;
use crate::errors::ProtocolError;

verus! {

/// The largest liquidation penalty, in basis points (20%).
pub const MAX_LIQUIDATION_PENALTY_BPS: u16 = 2000;

/// The protocol's single administrative authority and its pause switch.
#[derive(Clone, Copy, Debug)]
pub struct Config {
    pub authority: Address,
    pub paused: bool,
}

impl Config {
    /// An unpaused protocol run by `authority`.
    pub fn new(authority: Address) -> (r: Config)
        ensures
            r.authority == authority,
            !r.paused,
    {
        Config { authority, paused: false }
    }

    pub fn is_paused(&self) -> (r: bool)
        ensures
            r == self.paused,
    {
        self.paused
    }
}

/// The risk parameters of one collateral asset, as numbers.
pub struct CollateralConfigModel {
    pub mint: Address,
    pub oracle: Address,
    pub max_ltv: u16,
    pub liquidation_threshold: u16,
    pub liquidation_penalty: u16,
    pub min_deposit: u64,
    pub interest_rate_bps: u16,
    pub oracle_max_age: u64,
    pub decimals: u8,
    pub enabled: bool,
}

impl CollateralConfigModel {
    /// A position is liquidated strictly above the largest LTV it may be
    /// opened at, and the liquidator takes at most 20% of the proceeds.
    pub open spec fn wf(self) -> bool {
        self.liquidation_threshold > self.max_ltv && self.liquidation_penalty <= 2000
    }
}

/// The risk parameters of one collateral asset.
#[derive(Clone, Copy, Debug)]
pub struct CollateralConfig {
    /// The collateral token's mint.
    mint: Address,
    /// The price feed of the asset.
    oracle: Address,
    /// Largest loan-to-value a position may be opened at, in basis points.
    max_ltv: u16,
    /// Loan-to-value from which a position may be liquidated, in basis points.
    liquidation_threshold: u16,
    /// The liquidator's share of the proceeds, in basis points.
    liquidation_penalty: u16,
    /// Smallest deposit, in the token's own units.
    min_deposit: u64,
    /// Yearly borrowing rate, in basis points.
    interest_rate_bps: u16,
    /// Oldest acceptable price, in seconds.
    oracle_max_age: u64,
    /// Decimals of the token.
    decimals: u8,
    enabled: bool,
}

impl View for CollateralConfig {
    type V = CollateralConfigModel;

    closed spec fn view(&self) -> CollateralConfigModel {
        CollateralConfigModel {
            mint: self.mint,
            oracle: self.oracle,
            max_ltv: self.max_ltv,
            liquidation_threshold: self.liquidation_threshold,
            liquidation_penalty: self.liquidation_penalty,
            min_deposit: self.min_deposit,
            interest_rate_bps: self.interest_rate_bps,
            oracle_max_age: self.oracle_max_age,
            decimals: self.decimals,
            enabled: self.enabled,
        }
    }
}

impl CollateralConfig {
    #[verifier::type_invariant]
    spec fn thresholds_ordered(&self) -> bool {
        self.liquidation_threshold > self.max_ltv && self.liquidation_penalty <= 2000
    }

    /// Registers an enabled collateral asset. Fails with
    /// `InvalidLiquidationThreshold` unless `liquidation_threshold > max_ltv`,
    /// then with `InvalidAmount` when `liquidation_penalty` exceeds 20%.
    pub fn new(
        mint: Address,
        oracle: Address,
        max_ltv: u16,
        liquidation_threshold: u16,
        liquidation_penalty: u16,
        min_deposit: u64,
        interest_rate_bps: u16,
        oracle_max_age: u64,
        decimals: u8,
    ) -> (r: Result<CollateralConfig, ProtocolError>)
        ensures
            liquidation_threshold <= max_ltv ==> r == Err::<CollateralConfig, ProtocolError>(
                ProtocolError::InvalidLiquidationThreshold,
            ),
            liquidation_threshold > max_ltv && liquidation_penalty > 2000 ==> r == Err::<
                CollateralConfig,
                ProtocolError,
            >(ProtocolError::InvalidAmount),
            r is Ok <==> liquidation_threshold > max_ltv && liquidation_penalty <= 2000,
            r is Ok ==> r->Ok_0@ == (CollateralConfigModel {
                mint,
                oracle,
                max_ltv,
                liquidation_threshold,
                liquidation_penalty,
                min_deposit,
                interest_rate_bps,
                oracle_max_age,
                decimals,
                enabled: true,
            }),
            r is Ok ==> r->Ok_0@.wf(),
    {
        if liquidation_threshold <= max_ltv {
            return Err(ProtocolError::InvalidLiquidationThreshold);
        }
        if liquidation_penalty > MAX_LIQUIDATION_PENALTY_BPS {
            return Err(ProtocolError::InvalidAmount);
        }
        Ok(
            CollateralConfig {
                mint,
                oracle,
                max_ltv,
                liquidation_threshold,
                liquidation_penalty,
                min_deposit,
                interest_rate_bps,
                oracle_max_age,
                decimals,
                enabled: true,
            },
        )
    }

    /// Whether a position at `ltv` may be opened.
    pub fn validate_ltv(&self, ltv: u64) -> (r: bool)
        ensures
            r == (ltv <= self@.max_ltv),
    {
        ltv <= self.max_ltv as u64
    }

    /// Whether a position at `ltv` may be liquidated.
    pub fn is_liquidatable(&self, ltv: u64) -> (r: bool)
        ensures
            r == (ltv >= self@.liquidation_threshold),
    {
        ltv >= self.liquidation_threshold as u64
    }

    pub fn is_enabled(&self) -> (r: bool)
        ensures
            r == self@.enabled,
    {
        self.enabled
    }

    /// Whether the liquidation threshold lies above the largest opening LTV;
    /// every configuration keeps it so.
    pub fn validate_thresholds(&self) -> (r: bool)
        ensures
            r == (self@.liquidation_threshold > self@.max_ltv),
            r,
            self@.wf(),
    {
        proof {
            use_type_invariant(self);
        }
        self.liquidation_threshold > self.max_ltv
    }

    /// Turns the asset on or off for new deposits and positions.
    pub fn set_enabled(&mut self, enabled: bool)
        ensures
            final(self)@ == (CollateralConfigModel { enabled, ..old(self)@ }),
            final(self)@.wf(),
    {
        proof {
            use_type_invariant(&*self);
        }
        self.enabled = enabled;
    }

    /// Replaces the given LTV bounds, keeping the others. Fails with
    /// `InvalidLiquidationThreshold`, changing nothing, unless the resulting
    /// threshold lies strictly above the resulting largest LTV.
    pub fn set_ltv_params(&mut self, max_ltv: Option<u16>, liquidation_threshold: Option<u16>) -> (r:
        Result<(), ProtocolError>)
        ensures
            ({
                let new_max = match max_ltv {
                    Some(v) => v,
                    None => old(self)@.max_ltv,
                };
                let new_threshold = match liquidation_threshold {
                    Some(v) => v,
                    None => old(self)@.liquidation_threshold,
                };
                &&& r is Ok <==> new_threshold > new_max
                &&& r is Err ==> r == Err::<(), ProtocolError>(
                    ProtocolError::InvalidLiquidationThreshold,
                ) && final(self)@ == old(self)@
                &&& r is Ok ==> final(self)@ == (CollateralConfigModel {
                    max_ltv: new_max,
                    liquidation_threshold: new_threshold,
                    ..old(self)@
                })
            }),
            final(self)@.wf(),
    {
        proof {
            use_type_invariant(&*self);
        }
        let new_max = match max_ltv {
            Some(v) => v,
            None => self.max_ltv,
        };
        let new_threshold = match liquidation_threshold {
            Some(v) => v,
            None => self.liquidation_threshold,
        };
        if new_threshold <= new_max {
            return Err(ProtocolError::InvalidLiquidationThreshold);
        }
        *self = CollateralConfig { max_ltv: new_max, liquidation_threshold: new_threshold, ..*self };
        Ok(())
    }

    /// Replaces the liquidation penalty. Fails with `InvalidAmount`, changing
    /// nothing, above 20%.
    pub fn set_liquidation_penalty(&mut self, penalty: u16) -> (r: Result<(), ProtocolError>)
        ensures
            r is Ok <==> penalty <= 2000,
            r is Err ==> r == Err::<(), ProtocolError>(ProtocolError::InvalidAmount),
            r is Err ==> final(self)@ == old(self)@,
            r is Ok ==> final(self)@ == (CollateralConfigModel {
                liquidation_penalty: penalty,
                ..old(self)@
            }),
            final(self)@.wf(),
    {
        proof {
            use_type_invariant(&*self);
        }
        if penalty > MAX_LIQUIDATION_PENALTY_BPS {
            return Err(ProtocolError::InvalidAmount);
        }
        self.liquidation_penalty = penalty;
        Ok(())
    }

    /// Replaces the smallest accepted deposit.
    pub fn set_min_deposit(&mut self, min_deposit: u64)
        ensures
            final(self)@ == (CollateralConfigModel { min_deposit, ..old(self)@ }),
            final(self)@.wf(),
    {
        proof {
            use_type_invariant(&*self);
        }
        self.min_deposit = min_deposit;
    }

    /// Points the asset at another price feed.
    pub fn set_oracle(&mut self, oracle: Address)
        ensures
            final(self)@ == (CollateralConfigModel { oracle, ..old(self)@ }),
            final(self)@.wf(),
    {
        proof {
            use_type_invariant(&*self);
        }
        self.oracle = oracle;
    }

    pub fn mint(&self) -> (r: Address)
        ensures
            r == self@.mint,
    {
        self.mint
    }

    pub fn oracle(&self) -> (r: Address)
        ensures
            r == self@.oracle,
    {
        self.oracle
    }

    pub fn max_ltv(&self) -> (r: u16)
        ensures
            r == self@.max_ltv,
    {
        self.max_ltv
    }

    pub fn liquidation_threshold(&self) -> (r: u16)
        ensures
            r == self@.liquidation_threshold,
    {
        self.liquidation_threshold
    }

    pub fn liquidation_penalty(&self) -> (r: u16)
        ensures
            r == self@.liquidation_penalty,
    {
        self.liquidation_penalty
    }

    pub fn min_deposit(&self) -> (r: u64)
        ensures
            r == self@.min_deposit,
    {
        self.min_deposit
    }

    pub fn interest_rate_bps(&self) -> (r: u16)
        ensures
            r == self@.interest_rate_bps,
    {
        self.interest_rate_bps
    }

    pub fn oracle_max_age(&self) -> (r: u64)
        ensures
            r == self@.oracle_max_age,
    {
        self.oracle_max_age
    }

    pub fn decimals(&self) -> (r: u8)
        ensures
            r == self@.decimals,
    {
        self.decimals
    }
}

} // verus!
