use vstd::prelude::*;

verus! {

/// Every way in which an operation of the protocol can fail.
///
/// A failed operation leaves all records exactly as they were.
#[derive(Clone, Copy, Debug, PartialEq, Eq, Structural)]
pub enum ProtocolError {
    ProtocolPaused,
    Unauthorized,
    InvalidCollateralType,
    InsufficientCollateral,
    ExceedsMaxLTV,
    NotLiquidatable,
    PositionNotActive,
    PositionStillActive,
    PositionHealthy,
    InsufficientLiquidity,
    OracleStale,
    OraclePriceUnavailable,
    MathOverflow,
    MathUnderflow,
    InvalidAmount,
    InvalidLiquidationThreshold,
    InvalidOwner,
    InvalidMeteoraPosition,
    RepaymentFailed,
    WithdrawalFailed,
    BadDebt,
}

impl ProtocolError {
    /// The human-readable text of each error.
    pub open spec fn message_spec(self) -> Seq<char> {
        match self {
            ProtocolError::ProtocolPaused => "Protocol is currently paused"@,
            ProtocolError::Unauthorized => "Unauthorized: only protocol authority can perform this action"@,
            ProtocolError::InvalidCollateralType => "Invalid collateral type"@,
            ProtocolError::InsufficientCollateral => "Collateral amount below minimum required"@,
            ProtocolError::ExceedsMaxLTV => "Position exceeds maximum LTV ratio"@,
            ProtocolError::NotLiquidatable => "Position is not in liquidatable state"@,
            ProtocolError::PositionNotActive => "Position is already closed or liquidated"@,
            ProtocolError::PositionStillActive => "Position is still active"@,
            ProtocolError::PositionHealthy => "Position is still healthy and cannot be liquidated"@,
            ProtocolError::InsufficientLiquidity => "Lending vault has insufficient liquidity"@,
            ProtocolError::OracleStale => "Oracle price is stale or invalid"@,
            ProtocolError::OraclePriceUnavailable => "Oracle price is not available"@,
            ProtocolError::MathOverflow => "Math overflow occurred"@,
            ProtocolError::MathUnderflow => "Math underflow occurred"@,
            ProtocolError::InvalidAmount => "Invalid amount provided"@,
            ProtocolError::InvalidLiquidationThreshold => "Invalid liquidation threshold configuration"@,
            ProtocolError::InvalidOwner => "Position owner mismatch"@,
            ProtocolError::InvalidMeteoraPosition => "Meteora position reference is invalid"@,
            ProtocolError::RepaymentFailed => "Debt repayment failed"@,
            ProtocolError::WithdrawalFailed => "Collateral withdrawal failed"@,
            ProtocolError::BadDebt => "Bad debt detected - insufficient collateral to cover debt"@,
        }
    }

    /// The human-readable text of the error.
    pub fn message(&self) -> (r: &'static str)
        ensures
            r@ == self.message_spec(),
    {
        match self {
            ProtocolError::ProtocolPaused => "Protocol is currently paused",
            ProtocolError::Unauthorized => "Unauthorized: only protocol authority can perform this action",
            ProtocolError::InvalidCollateralType => "Invalid collateral type",
            ProtocolError::InsufficientCollateral => "Collateral amount below minimum required",
            ProtocolError::ExceedsMaxLTV => "Position exceeds maximum LTV ratio",
            ProtocolError::NotLiquidatable => "Position is not in liquidatable state",
            ProtocolError::PositionNotActive => "Position is already closed or liquidated",
            ProtocolError::PositionStillActive => "Position is still active",
            ProtocolError::PositionHealthy => "Position is still healthy and cannot be liquidated",
            ProtocolError::InsufficientLiquidity => "Lending vault has insufficient liquidity",
            ProtocolError::OracleStale => "Oracle price is stale or invalid",
            ProtocolError::OraclePriceUnavailable => "Oracle price is not available",
            ProtocolError::MathOverflow => "Math overflow occurred",
            ProtocolError::MathUnderflow => "Math underflow occurred",
            ProtocolError::InvalidAmount => "Invalid amount provided",
            ProtocolError::InvalidLiquidationThreshold => "Invalid liquidation threshold configuration",
            ProtocolError::InvalidOwner => "Position owner mismatch",
            ProtocolError::InvalidMeteoraPosition => "Meteora position reference is invalid",
            ProtocolError::RepaymentFailed => "Debt repayment failed",
            ProtocolError::WithdrawalFailed => "Collateral withdrawal failed",
            ProtocolError::BadDebt => "Bad debt detected - insufficient collateral to cover debt",
        }
    }
}

} // verus!
