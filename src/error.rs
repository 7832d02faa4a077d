use vstd::prelude::*;

verus! {

/// Every failure condition of the lending core, one variant per condition.
#[derive(Debug, Clone, Copy, PartialEq, Eq, Structural)]
pub enum LendingError {
    MathOverflow,
    InvalidPythAccount,
    PythPriceTooOld,
    PythConfidenceTooWide,
    ChainlinkPriceTooOld,
    InvalidChainlinkPrice,
    AllOraclesFailed,
    InvalidPythPrice,
    InsufficientCollateral,
    InsufficientCollateralAmount,
    PositionHealthy,
    PositionWouldBecomeUnhealthy,
    InvalidOwner,
    InsufficientCollateralForLiquidation,
    ZeroAmount,
    MaxAssetsExceeded,
    InsufficientLiquidity,
    DelegationMismatch,
    DelegationExceeded,
    InvalidOperation,
    DelegationIsActive,
    FlashLoanNotAvailable,
    FlashLoanReentrancy,
    FlashLoanRepaymentFailed,
    CollateralMintMismatch,
    LoanMintMismatch,
    ProtocolPaused,
    ProtocolNotActive,
    CannotLiquidateSelf,
    InvalidOracleAccount,
    InvalidLtv,
    InvalidLiquidationThreshold,
    InvalidOptimalUtilization,
    InvalidAssetVault,
    InvalidAssetPool,
    InvalidAssetMint,
}

/// The stable numeric code of each error: 6000 onwards, in declaration order.
pub open spec fn error_code(e: LendingError) -> u32 {
    match e {
        LendingError::MathOverflow => 6000,
        LendingError::InvalidPythAccount => 6001,
        LendingError::PythPriceTooOld => 6002,
        LendingError::PythConfidenceTooWide => 6003,
        LendingError::ChainlinkPriceTooOld => 6004,
        LendingError::InvalidChainlinkPrice => 6005,
        LendingError::AllOraclesFailed => 6006,
        LendingError::InvalidPythPrice => 6007,
        LendingError::InsufficientCollateral => 6008,
        LendingError::InsufficientCollateralAmount => 6009,
        LendingError::PositionHealthy => 6010,
        LendingError::PositionWouldBecomeUnhealthy => 6011,
        LendingError::InvalidOwner => 6012,
        LendingError::InsufficientCollateralForLiquidation => 6013,
        LendingError::ZeroAmount => 6014,
        LendingError::MaxAssetsExceeded => 6015,
        LendingError::InsufficientLiquidity => 6016,
        LendingError::DelegationMismatch => 6017,
        LendingError::DelegationExceeded => 6018,
        LendingError::InvalidOperation => 6019,
        LendingError::DelegationIsActive => 6020,
        LendingError::FlashLoanNotAvailable => 6021,
        LendingError::FlashLoanReentrancy => 6022,
        LendingError::FlashLoanRepaymentFailed => 6023,
        LendingError::CollateralMintMismatch => 6024,
        LendingError::LoanMintMismatch => 6025,
        LendingError::ProtocolPaused => 6026,
        LendingError::ProtocolNotActive => 6027,
        LendingError::CannotLiquidateSelf => 6028,
        LendingError::InvalidOracleAccount => 6029,
        LendingError::InvalidLtv => 6030,
        LendingError::InvalidLiquidationThreshold => 6031,
        LendingError::InvalidOptimalUtilization => 6032,
        LendingError::InvalidAssetVault => 6033,
        LendingError::InvalidAssetPool => 6034,
        LendingError::InvalidAssetMint => 6035,
    }
}

impl LendingError {
    /// The stable numeric code of this error.
    pub fn code(&self) -> (r: u32)
        ensures
            r == error_code(*self),
    {
        match self {
            LendingError::MathOverflow => 6000,
            LendingError::InvalidPythAccount => 6001,
            LendingError::PythPriceTooOld => 6002,
            LendingError::PythConfidenceTooWide => 6003,
            LendingError::ChainlinkPriceTooOld => 6004,
            LendingError::InvalidChainlinkPrice => 6005,
            LendingError::AllOraclesFailed => 6006,
            LendingError::InvalidPythPrice => 6007,
            LendingError::InsufficientCollateral => 6008,
            LendingError::InsufficientCollateralAmount => 6009,
            LendingError::PositionHealthy => 6010,
            LendingError::PositionWouldBecomeUnhealthy => 6011,
            LendingError::InvalidOwner => 6012,
            LendingError::InsufficientCollateralForLiquidation => 6013,
            LendingError::ZeroAmount => 6014,
            LendingError::MaxAssetsExceeded => 6015,
            LendingError::InsufficientLiquidity => 6016,
            LendingError::DelegationMismatch => 6017,
            LendingError::DelegationExceeded => 6018,
            LendingError::InvalidOperation => 6019,
            LendingError::DelegationIsActive => 6020,
            LendingError::FlashLoanNotAvailable => 6021,
            LendingError::FlashLoanReentrancy => 6022,
            LendingError::FlashLoanRepaymentFailed => 6023,
            LendingError::CollateralMintMismatch => 6024,
            LendingError::LoanMintMismatch => 6025,
            LendingError::ProtocolPaused => 6026,
            LendingError::ProtocolNotActive => 6027,
            LendingError::CannotLiquidateSelf => 6028,
            LendingError::InvalidOracleAccount => 6029,
            LendingError::InvalidLtv => 6030,
            LendingError::InvalidLiquidationThreshold => 6031,
            LendingError::InvalidOptimalUtilization => 6032,
            LendingError::InvalidAssetVault => 6033,
            LendingError::InvalidAssetPool => 6034,
            LendingError::InvalidAssetMint => 6035,
        }
    }

    /// The human-readable message of this error.
    pub fn message(&self) -> &'static str {
        match self {
            LendingError::MathOverflow => "Mathematical overflow during calculation.",
            LendingError::InvalidPythAccount => "Invalid Pyth account provided.",
            LendingError::PythPriceTooOld => "The Pyth price feed is too old.",
            LendingError::PythConfidenceTooWide => "The Pyth price confidence interval is too wide.",
            LendingError::ChainlinkPriceTooOld => "The Chainlink price feed is too old.",
            LendingError::InvalidChainlinkPrice => "Invalid Chainlink price (e.g., negative or zero).",
            LendingError::AllOraclesFailed => "All available oracles failed to provide a valid price.",
            LendingError::InvalidPythPrice => "The Pyth price is invalid (e.g., negative or zero).",
            LendingError::InsufficientCollateral => "Collateral value is insufficient for this operation.",
            LendingError::InsufficientCollateralAmount => "Not enough collateral deposited to withdraw this amount.",
            LendingError::PositionHealthy => "The position is healthy and cannot be liquidated.",
            LendingError::PositionWouldBecomeUnhealthy => "This operation would leave the position unhealthy.",
            LendingError::InvalidOwner => "The signer is not the owner of the user position account.",
            LendingError::InsufficientCollateralForLiquidation => "Not enough collateral in the position for the liquidation seizure.",
            LendingError::ZeroAmount => "The transaction amount cannot be zero.",
            LendingError::MaxAssetsExceeded => "The maximum number of asset pools has been reached.",
            LendingError::InsufficientLiquidity => "The asset pool has insufficient liquidity for this operation.",
            LendingError::DelegationMismatch => "The signer does not match the approved delegatee for this credit line.",
            LendingError::DelegationExceeded => "The requested borrow amount exceeds the delegated credit line.",
            LendingError::InvalidOperation => "The operation provided in the batch transaction is invalid.",
            LendingError::DelegationIsActive => "The delegation is currently in use and cannot be revoked.",
            LendingError::FlashLoanNotAvailable => "Flash loans are not enabled for this asset pool.",
            LendingError::FlashLoanReentrancy => "Flash loan callback cannot be the lending program itself.",
            LendingError::FlashLoanRepaymentFailed => "The flash loan was not fully repaid with the required fee.",
            LendingError::CollateralMintMismatch => "The provided collateral mint account does not match the one in the collateral pool.",
            LendingError::LoanMintMismatch => "The provided loan mint account does not match the one in the loan pool.",
            LendingError::ProtocolPaused => "The protocol is currently paused by governance.",
            LendingError::ProtocolNotActive => "The protocol is not active. No new positions or loans can be created.",
            LendingError::CannotLiquidateSelf => "A liquidator cannot liquidate their own position.",
            LendingError::InvalidOracleAccount => "The provided oracle account is not valid or recognized.",
            LendingError::InvalidLtv => "Loan-to-value cannot be greater than the liquidation threshold.",
            LendingError::InvalidLiquidationThreshold => "Liquidation threshold must be less than 100%.",
            LendingError::InvalidOptimalUtilization => "Optimal utilization must be less than 100%.",
            LendingError::InvalidAssetVault => "The provided asset vault account is invalid for this pool.",
            LendingError::InvalidAssetPool => "The provided asset Pool account is invalid for this pool.",
            LendingError::InvalidAssetMint => "The provided asset Mint account is invalid for this pool.",
        }
    }
}

} // verus!
