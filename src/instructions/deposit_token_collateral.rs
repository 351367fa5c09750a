//! A first deposit of a token other than the wrapped native one as collateral.
use vstd::prelude::*;

use crate::address::Address;
use crate::errors::ProtocolError;
use crate::instructions::deposit_collateral::{
    deposit_error, is_opened_position, open_with_deposit, CollateralDeposit, CollateralTransfer,
};
use crate::state::config::{CollateralConfig, Config};

verus! {

/// The records a deposit of a token other than the wrapped native one reads.
pub struct DepositTokenCollateral {
    /// The depositor.
    pub user: Address,
    pub config: Config,
    /// The mint of the deposited token.
    pub mint: Address,
    pub collateral_config: CollateralConfig,
    /// Unix time of the operation.
    pub now: i64,
}

impl DepositTokenCollateral {
    /// Opens the user's position with `amount` of a token other than the wrapped native one.
    ///
    /// Fails with `InvalidCollateralType` for the wrapped native mint, then as any
    /// collateral deposit does (see `deposit_error`).
    pub fn deposit(&self, amount: u64) -> (r: Result<CollateralDeposit, ProtocolError>)
        ensures
            self.mint.bytes@ == Address::native_mint_bytes() ==> r == Err::<CollateralDeposit, ProtocolError>(
                ProtocolError::InvalidCollateralType,
            ),
            !(self.mint.bytes@ == Address::native_mint_bytes()) ==> match deposit_error(
                self.config,
                self.collateral_config,
                self.mint,
                amount,
            ) {
                Some(e) => r == Err::<CollateralDeposit, ProtocolError>(e),
                None => {
                    &&& r is Ok
                    &&& is_opened_position(
                        r->Ok_0.position,
                        self.user,
                        self.collateral_config,
                        amount,
                        self.now,
                    )
                    &&& r->Ok_0.transfer == CollateralTransfer::Token { amount, decimals: self.collateral_config@.decimals }
                },
            },
    {
        if self.mint.is_native_mint() {
            return Err(ProtocolError::InvalidCollateralType);
        }
        let position = match open_with_deposit(
            self.user,
            &self.config,
            self.mint,
            &self.collateral_config,
            self.now,
            amount,
        ) {
            Ok(p) => p,
            Err(e) => {
                return Err(e);
            },
        };
        Ok(CollateralDeposit { position, transfer: CollateralTransfer::Token { amount, decimals: self.collateral_config.decimals() } })
    }
}

} // verus!
