//! The lending pool ledger: what liquidity providers supplied and what
//! borrowers owe, in the base asset.
use vstd::prelude::*;

use crate::address::Address;
use crate::errors::ProtocolError;

verus! {

/// The pool of the base asset. Borrowed funds never exceed supplied funds.
#[derive(Clone, Copy, Debug)]
pub struct LendingVault {
    pub(crate) authority: Address,
    pub(crate) total_supplied: u64,
    pub(crate) total_borrowed: u64,
    /// Simple yearly interest paid to suppliers, in basis points.
    pub(crate) interest_rate_bps: u16,
    /// Unix time of the last accrual.
    pub(crate) last_update: i64,
}

/// The ledger of a pool as numbers.
pub struct LendingVaultModel {
    pub authority: Address,
    pub total_supplied: u64,
    pub total_borrowed: u64,
    pub interest_rate_bps: u16,
    pub last_update: i64,
}

impl LendingVaultModel {
    /// The liquidity left to borrow: `total_supplied − total_borrowed`.
    pub open spec fn available(self) -> int {
        self.total_supplied - self.total_borrowed
    }

    /// Borrowed funds never exceed supplied funds.
    pub open spec fn wf(self) -> bool {
        self.total_borrowed <= self.total_supplied
    }
}

impl View for LendingVault {
    type V = LendingVaultModel;

    closed spec fn view(&self) -> LendingVaultModel {
        LendingVaultModel {
            authority: self.authority,
            total_supplied: self.total_supplied,
            total_borrowed: self.total_borrowed,
            interest_rate_bps: self.interest_rate_bps,
            last_update: self.last_update,
        }
    }
}

impl LendingVault {
    #[verifier::type_invariant]
    spec fn borrowed_within_supplied(&self) -> bool {
        self.total_borrowed <= self.total_supplied
    }

    /// A pool that holds nothing and owes nothing.
    pub fn new(authority: Address, interest_rate_bps: u16, last_update: i64) -> (r: LendingVault)
        ensures
            r@.authority == authority,
            r@.total_supplied == 0,
            r@.total_borrowed == 0,
            r@.interest_rate_bps == interest_rate_bps,
            r@.last_update == last_update,
            r@.wf(),
    {
        LendingVault { authority, total_supplied: 0, total_borrowed: 0, interest_rate_bps, last_update }
    }

    pub fn authority(&self) -> (r: Address)
        ensures
            r == self@.authority,
    {
        self.authority
    }

    pub fn total_supplied(&self) -> (r: u64)
        ensures
            r == self@.total_supplied,
            self@.wf(),
    {
        proof {
            use_type_invariant(self);
        }
        self.total_supplied
    }

    pub fn total_borrowed(&self) -> (r: u64)
        ensures
            r == self@.total_borrowed,
            self@.wf(),
    {
        proof {
            use_type_invariant(self);
        }
        self.total_borrowed
    }

    pub fn interest_rate_bps(&self) -> (r: u16)
        ensures
            r == self@.interest_rate_bps,
    {
        self.interest_rate_bps
    }

    pub fn last_update(&self) -> (r: i64)
        ensures
            r == self@.last_update,
    {
        self.last_update
    }

    /// Liquidity available to borrow.
    pub fn available_liquidity(&self) -> (r: u64)
        ensures
            self@.wf(),
            r == self@.available(),
    {
        proof {
            use_type_invariant(self);
        }
        self.total_supplied - self.total_borrowed
    }

    /// Whether `amount` can be borrowed now.
    pub fn can_borrow(&self, amount: u64) -> (r: bool)
        ensures
            r == (amount <= self@.available()),
    {
        self.available_liquidity() >= amount
    }

    /// Lends `amount` out of the pool. Fails with `InsufficientLiquidity`,
    /// changing nothing, when `amount` exceeds the available liquidity.
    pub fn borrow(&mut self, amount: u64) -> (r: Result<(), ProtocolError>)
        ensures
            final(self)@.wf(),
            r is Ok <==> amount <= old(self)@.available(),
            r is Err ==> r == Err::<(), ProtocolError>(ProtocolError::InsufficientLiquidity)
                && final(self)@ == old(self)@,
            r is Ok ==> final(self)@ == (LendingVaultModel {
                total_borrowed: (old(self)@.total_borrowed + amount) as u64,
                ..old(self)@
            }),
    {
        proof {
            use_type_invariant(&*self);
        }
        if !self.can_borrow(amount) {
            return Err(ProtocolError::InsufficientLiquidity);
        }
        self.total_borrowed = self.total_borrowed + amount;
        Ok(())
    }

    /// Records that `amount` of debt came back. Fails with `MathUnderflow`,
    /// changing nothing, when more is repaid than is owed to the pool.
    pub fn repay(&mut self, amount: u64) -> (r: Result<(), ProtocolError>)
        ensures
            final(self)@.wf(),
            r is Ok <==> amount <= old(self)@.total_borrowed,
            r is Err ==> r == Err::<(), ProtocolError>(ProtocolError::MathUnderflow) && final(self)@
                == old(self)@,
            r is Ok ==> final(self)@ == (LendingVaultModel {
                total_borrowed: (old(self)@.total_borrowed - amount) as u64,
                ..old(self)@
            }),
    {
        proof {
            use_type_invariant(&*self);
        }
        if amount > self.total_borrowed {
            return Err(ProtocolError::MathUnderflow);
        }
        self.total_borrowed = self.total_borrowed - amount;
        Ok(())
    }

    /// Records `amount` supplied to the pool. Fails with `MathOverflow`,
    /// changing nothing, when the total would not fit in a `u64`.
    pub fn supply(&mut self, amount: u64) -> (r: Result<(), ProtocolError>)
        ensures
            final(self)@.wf(),
            r is Ok <==> old(self)@.total_supplied + amount <= u64::MAX,
            r is Err ==> r == Err::<(), ProtocolError>(ProtocolError::MathOverflow) && final(self)@
                == old(self)@,
            r is Ok ==> final(self)@ == (LendingVaultModel {
                total_supplied: (old(self)@.total_supplied + amount) as u64,
                ..old(self)@
            }),
    {
        proof {
            use_type_invariant(&*self);
        }
        if amount > u64::MAX - self.total_supplied {
            return Err(ProtocolError::MathOverflow);
        }
        self.total_supplied = self.total_supplied + amount;
        Ok(())
    }

    /// Records `amount` of principal taken out of the pool. Fails with
    /// `MathUnderflow` when more is taken than was supplied, and with
    /// `InsufficientLiquidity` when what is left would not cover the borrowed
    /// funds; either way nothing changes.
    pub fn withdraw(&mut self, amount: u64) -> (r: Result<(), ProtocolError>)
        ensures
            final(self)@.wf(),
            amount > old(self)@.total_supplied ==> r == Err::<(), ProtocolError>(
                ProtocolError::MathUnderflow,
            ),
            amount <= old(self)@.total_supplied && amount > old(self)@.available() ==> r == Err::<
                (),
                ProtocolError,
            >(ProtocolError::InsufficientLiquidity),
            r is Ok <==> amount <= old(self)@.available(),
            r is Err ==> final(self)@ == old(self)@,
            r is Ok ==> final(self)@ == (LendingVaultModel {
                total_supplied: (old(self)@.total_supplied - amount) as u64,
                ..old(self)@
            }),
    {
        proof {
            use_type_invariant(&*self);
        }
        if amount > self.total_supplied {
            return Err(ProtocolError::MathUnderflow);
        }
        if amount > self.available_liquidity() {
            return Err(ProtocolError::InsufficientLiquidity);
        }
        self.total_supplied = self.total_supplied - amount;
        Ok(())
    }
}

} // verus!
