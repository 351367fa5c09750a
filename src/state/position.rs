//! A borrower's leveraged position and its life cycle:
//! `Active → Closed` and `Active → Liquidated`, both terminal.
use vstd::prelude::*;

use crate::address::Address;
use crate::errors::ProtocolError;

verus! {

#[derive(Clone, Copy, Debug, PartialEq, Eq, Structural)]
pub enum PositionStatus {
    Active,
    Closed,
    Liquidated,
}

/// A position as numbers.
pub struct PositionModel {
    pub owner: Address,
    pub collateral_mint: Address,
    pub collateral_amount: u64,
    pub debt_amount: u64,
    pub meteora_position: Address,
    pub created_at: i64,
    pub status: PositionStatus,
}

impl PositionModel {
    /// Only an active position owes anything.
    pub open spec fn wf(self) -> bool {
        self.status != PositionStatus::Active ==> self.debt_amount == 0
    }
}

/// One user's position in one collateral asset.
#[derive(Clone, Copy, Debug)]
pub struct Position {
    owner: Address,
    collateral_mint: Address,
    /// Collateral deposited, in the token's own units.
    collateral_amount: u64,
    /// Base asset borrowed from the pool.
    debt_amount: u64,
    /// The market-maker position that holds the borrowed funds.
    meteora_position: Address,
    /// Unix time of the first deposit.
    created_at: i64,
    status: PositionStatus,
}

impl View for Position {
    type V = PositionModel;

    closed spec fn view(&self) -> PositionModel {
        PositionModel {
            owner: self.owner,
            collateral_mint: self.collateral_mint,
            collateral_amount: self.collateral_amount,
            debt_amount: self.debt_amount,
            meteora_position: self.meteora_position,
            created_at: self.created_at,
            status: self.status,
        }
    }
}

impl Position {
    #[verifier::type_invariant]
    spec fn debt_only_while_active(&self) -> bool {
        self.status != PositionStatus::Active ==> self.debt_amount == 0
    }

    /// A new active position holding `collateral_amount`, with no debt and no
    /// market-maker position yet.
    pub fn new(owner: Address, collateral_mint: Address, collateral_amount: u64, created_at: i64) -> (r:
        Position)
        ensures
            r@.owner == owner,
            r@.collateral_mint == collateral_mint,
            r@.collateral_amount == collateral_amount,
            r@.debt_amount == 0,
            r@.meteora_position.is_zero_spec(),
            r@.created_at == created_at,
            r@.status == PositionStatus::Active,
            r@.wf(),
    {
        Position {
            owner,
            collateral_mint,
            collateral_amount,
            debt_amount: 0,
            meteora_position: Address::zero(),
            created_at,
            status: PositionStatus::Active,
        }
    }

    pub fn owner(&self) -> (r: Address)
        ensures
            r == self@.owner,
    {
        self.owner
    }

    pub fn collateral_mint(&self) -> (r: Address)
        ensures
            r == self@.collateral_mint,
    {
        self.collateral_mint
    }

    pub fn collateral_amount(&self) -> (r: u64)
        ensures
            r == self@.collateral_amount,
    {
        self.collateral_amount
    }

    pub fn debt_amount(&self) -> (r: u64)
        ensures
            r == self@.debt_amount,
            self@.wf(),
    {
        proof {
            use_type_invariant(self);
        }
        self.debt_amount
    }

    pub fn meteora_position(&self) -> (r: Address)
        ensures
            r == self@.meteora_position,
    {
        self.meteora_position
    }

    pub fn created_at(&self) -> (r: i64)
        ensures
            r == self@.created_at,
    {
        self.created_at
    }

    pub fn status(&self) -> (r: PositionStatus)
        ensures
            r == self@.status,
            self@.wf(),
    {
        proof {
            use_type_invariant(self);
        }
        self.status
    }

    pub fn is_active(&self) -> (r: bool)
        ensures
            r == (self@.status == PositionStatus::Active),
    {
        self.status == PositionStatus::Active
    }

    /// Whether the position has reached a terminal state.
    pub fn is_closed(&self) -> (r: bool)
        ensures
            r == (self@.status == PositionStatus::Closed || self@.status
                == PositionStatus::Liquidated),
    {
        self.status == PositionStatus::Closed || self.status == PositionStatus::Liquidated
    }

    /// Records the debt of a leveraged opening and the market-maker position
    /// that holds it. Fails with `PositionNotActive`, changing nothing, on a
    /// terminal position.
    pub fn record_debt(&mut self, debt_amount: u64, meteora_position: Address) -> (r: Result<
        (),
        ProtocolError,
    >)
        ensures
            r is Ok <==> old(self)@.status == PositionStatus::Active,
            r is Err ==> r == Err::<(), ProtocolError>(ProtocolError::PositionNotActive),
            r is Err ==> final(self)@ == old(self)@,
            r is Ok ==> final(self)@ == (PositionModel {
                debt_amount,
                meteora_position,
                ..old(self)@
            }),
            final(self)@.wf(),
    {
        proof {
            use_type_invariant(&*self);
        }
        if self.status != PositionStatus::Active {
            return Err(ProtocolError::PositionNotActive);
        }
        self.debt_amount = debt_amount;
        self.meteora_position = meteora_position;
        Ok(())
    }

    /// Ends an active position voluntarily; its debt is settled. Fails with
    /// `PositionNotActive`, changing nothing, on a terminal position.
    pub fn mark_closed(&mut self) -> (r: Result<(), ProtocolError>)
        ensures
            r is Ok <==> old(self)@.status == PositionStatus::Active,
            r is Err ==> r == Err::<(), ProtocolError>(ProtocolError::PositionNotActive),
            r is Err ==> final(self)@ == old(self)@,
            r is Ok ==> final(self)@ == (PositionModel {
                debt_amount: 0,
                status: PositionStatus::Closed,
                ..old(self)@
            }),
            final(self)@.wf(),
    {
        proof {
            use_type_invariant(&*self);
        }
        if self.status != PositionStatus::Active {
            return Err(ProtocolError::PositionNotActive);
        }
        *self = Position { debt_amount: 0, status: PositionStatus::Closed, ..*self };
        Ok(())
    }

    /// Ends an active position by liquidation; its debt is settled. Fails
    /// with `PositionNotActive`, changing nothing, on a terminal position.
    pub fn mark_liquidated(&mut self) -> (r: Result<(), ProtocolError>)
        ensures
            r is Ok <==> old(self)@.status == PositionStatus::Active,
            r is Err ==> r == Err::<(), ProtocolError>(ProtocolError::PositionNotActive),
            r is Err ==> final(self)@ == old(self)@,
            r is Ok ==> final(self)@ == (PositionModel {
                debt_amount: 0,
                status: PositionStatus::Liquidated,
                ..old(self)@
            }),
            final(self)@.wf(),
    {
        proof {
            use_type_invariant(&*self);
        }
        if self.status != PositionStatus::Active {
            return Err(ProtocolError::PositionNotActive);
        }
        *self = Position { debt_amount: 0, status: PositionStatus::Liquidated, ..*self };
        Ok(())
    }

    /// Takes all collateral out of a terminal position and returns how much
    /// there was. Fails with `PositionStillActive`, changing nothing, on an
    /// active position.
    pub fn take_collateral(&mut self) -> (r: Result<u64, ProtocolError>)
        ensures
            r is Ok <==> old(self)@.status != PositionStatus::Active,
            r is Err ==> r == Err::<u64, ProtocolError>(ProtocolError::PositionStillActive),
            r is Err ==> final(self)@ == old(self)@,
            r is Ok ==> r->Ok_0 == old(self)@.collateral_amount && final(self)@ == (PositionModel {
                collateral_amount: 0,
                ..old(self)@
            }),
            final(self)@.wf(),
    {
        proof {
            use_type_invariant(&*self);
        }
        if self.status == PositionStatus::Active {
            return Err(ProtocolError::PositionStillActive);
        }
        let amount = self.collateral_amount;
        self.collateral_amount = 0;
        Ok(amount)
    }
}

} // verus!
