//! A user's first deposit of a collateral asset, which opens their position.
use vstd::prelude::*;

use crate::address::Address;
use crate::errors::ProtocolError;
use crate::state::config::{CollateralConfig, Config};
use crate::state::position::{Position, PositionStatus};

verus! {

/// How the deposited collateral moves from the user into the position's vault.
#[derive(Clone, Copy, Debug, PartialEq, Eq, Structural)]
pub enum CollateralTransfer {
    /// A transfer of the native asset.
    Native { amount: u64 },
    /// A checked token transfer.
    Token { amount: u64, decimals: u8 },
}

/// A position opened by a deposit, and the transfer that funds it.
#[derive(Clone, Copy, Debug)]
pub struct CollateralDeposit {
    pub position: Position,
    pub transfer: CollateralTransfer,
}

/// Why depositing `amount` of `mint` fails, if it does.
pub open spec fn deposit_error(
    config: Config,
    collateral_config: CollateralConfig,
    mint: Address,
    amount: u64,
) -> Option<ProtocolError> {
    if collateral_config@.mint != mint || !collateral_config@.enabled {
        Some(ProtocolError::InvalidCollateralType)
    } else if config.paused {
        Some(ProtocolError::ProtocolPaused)
    } else if amount < collateral_config@.min_deposit {
        Some(ProtocolError::InsufficientCollateral)
    } else {
        None
    }
}

/// Whether `p` is the position that `user` opens by depositing `amount` at `now`.
pub open spec fn is_opened_position(
    p: Position,
    user: Address,
    collateral_config: CollateralConfig,
    amount: u64,
    now: i64,
) -> bool {
    &&& p@.owner == user
    &&& p@.collateral_mint == collateral_config@.mint
    &&& p@.collateral_amount == amount
    &&& p@.debt_amount == 0
    &&& p@.meteora_position.is_zero_spec()
    &&& p@.created_at == now
    &&& p@.status == PositionStatus::Active
}

/// The checks every collateral deposit makes, and the position it opens.
pub(crate) fn open_with_deposit(
    user: Address,
    config: &Config,
    mint: Address,
    collateral_config: &CollateralConfig,
    now: i64,
    amount: u64,
) -> (r: Result<Position, ProtocolError>)
    ensures
        match deposit_error(*config, *collateral_config, mint, amount) {
            Some(e) => r == Err::<Position, ProtocolError>(e),
            None => r is Ok && is_opened_position(r->Ok_0, user, *collateral_config, amount, now),
        },
{
    if !collateral_config.mint().same(&mint) || !collateral_config.is_enabled() {
        return Err(ProtocolError::InvalidCollateralType);
    }
    if config.is_paused() {
        return Err(ProtocolError::ProtocolPaused);
    }
    if amount < collateral_config.min_deposit() {
        return Err(ProtocolError::InsufficientCollateral);
    }
    Ok(Position::new(user, collateral_config.mint(), amount, now))
}

/// The records a deposit of any collateral asset reads.
pub struct DepositCollateral {
    /// The depositor.
    pub user: Address,
    pub config: Config,
    /// The mint of the deposited token.
    pub mint: Address,
    pub collateral_config: CollateralConfig,
    /// Unix time of the operation.
    pub now: i64,
}

impl DepositCollateral {
    /// Opens the user's position with `amount` of collateral and says how
    /// the host moves it: as the native asset for the wrapped native mint,
    /// as a checked token transfer otherwise.
    ///
    /// Fails with `InvalidCollateralType` when the parameters are for
    /// another mint or the asset is disabled, with `ProtocolPaused` while
    /// paused, and with `InsufficientCollateral` below the asset's minimum.
    pub fn deposit(&self, amount: u64) -> (r: Result<CollateralDeposit, ProtocolError>)
        ensures
            match deposit_error(self.config, self.collateral_config, self.mint, amount) {
                Some(e) => r == Err::<CollateralDeposit, ProtocolError>(e),
                None => {
                    &&& r is Ok
                    &&& is_opened_position(
                        r->Ok_0.position,
                        self.user,
                        self.collateral_config,
                        amount,
                        self.now,
                    )
                    &&& r->Ok_0.transfer == if self.mint.bytes@ == Address::native_mint_bytes() {
                        CollateralTransfer::Native { amount }
                    } else {
                        CollateralTransfer::Token {
                            amount,
                            decimals: self.collateral_config@.decimals,
                        }
                    }
                },
            },
    {
        let position = match open_with_deposit(
            self.user,
            &self.config,
            self.mint,
            &self.collateral_config,
            self.now,
            amount,
        ) {
            Ok(p) => p,
            Err(e) => {
                return Err(e);
            },
        };
        let transfer = if self.mint.is_native_mint() {
            CollateralTransfer::Native { amount }
        } else {
            CollateralTransfer::Token { amount, decimals: self.collateral_config.decimals() }
        };
        Ok(CollateralDeposit { position, transfer })
    }
}

} // verus!
