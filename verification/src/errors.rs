//! The reasons for which an operation on a pool is rejected.

use vstd::prelude::*;

verus! {

/// The family an error belongs to.
#[derive(Clone, Copy, Debug, PartialEq, Eq, Structural)]
pub enum ErrorKind {
    /// A configuration value is out of range or names the wrong asset.
    ConfigurationError,
    /// The operation is not valid in the pool's current status or phase.
    PhaseError,
    /// The participant is unknown, already present, or cannot be admitted.
    MembershipError,
    /// The caller does not hold the role the operation asks for.
    AuthorizationError,
    /// A bid is refused, or there is no bid to resolve.
    BiddingError,
    /// A contribution has the wrong amount, is repeated, or is still owed.
    ContributionError,
    /// Collateral is missing, insufficient, or cannot be seized or returned.
    CollateralError,
    /// A payout is not due, was already made, or cannot be funded.
    PayoutError,
}

/// Every error a pool operation can surface.
#[derive(Clone, Copy, Debug, PartialEq, Eq, Structural)]
pub enum HuiFiError {
    InvalidPoolConfig,
    PoolFull,
    InvalidPoolStatus,
    MemberAlreadyJoined,
    Unauthorized,
    InsufficientContribution,
    InvalidCycleForContribution,
    AlreadyContributed,
    InsufficientCollateral,
    AlreadyReceivedPayout,
    NotEligibleForPayout,
    InsufficientVaultFunds,
    PendingContributions,
    InvalidPayoutAmount,
    MemberNotFound,
    InvalidTokenAccountOwner,
    CycleDurationNotElapsed,
    PayoutDelayNotElapsed,
    TreasuryAccountAlreadyExists,
    InvalidTreasuryAccount,
    NotWhitelisted,
    InvalidSlashAmount,
    MemberNotDefaulted,
    MemberNotPaidYet,
    UnsupportedToken,
    InvalidVault,
    InvalidPoolType,
    InvalidTokenMint,
    InvalidPoolUUID,
    NoBids,
    AlreadyBid,
    InvalidBidAmount,
    MissingCollateralVault,
    MissingTreasury,
    MissingPoolVault,
    MissingTokenProgram,
    InvalidWinnerAccount,
    InvalidPhaseTransition,
    CycleNotReadyForAdvancement,
    InvalidCyclePhase,
    InvalidPhase,
    NotPoolMember,
    BidTooHigh,
    NotPoolWinner,
    CollateralRequired,
    ContributionsPending,
    ProtocolFeeExceedsLimit,
    Overflow,
    UnclaimedPayouts,
    UnauthorizedAccess,
    NoCollateralDeposited,
    MemberAlreadyWithdrawed,
    CycleNotCompleted,
    AlreadyDepositedCollateral,
    CollateralNotDeposited,
}

impl HuiFiError {
    /// The family of this error.
    pub open spec fn kind_of(self) -> ErrorKind {
        match self {
            HuiFiError::InvalidPoolConfig
            | HuiFiError::InvalidTokenAccountOwner
            | HuiFiError::TreasuryAccountAlreadyExists
            | HuiFiError::InvalidTreasuryAccount
            | HuiFiError::UnsupportedToken
            | HuiFiError::InvalidVault
            | HuiFiError::InvalidPoolType
            | HuiFiError::InvalidTokenMint
            | HuiFiError::InvalidPoolUUID
            | HuiFiError::ProtocolFeeExceedsLimit => ErrorKind::ConfigurationError,
            HuiFiError::InvalidPoolStatus
            | HuiFiError::InvalidCycleForContribution
            | HuiFiError::CycleDurationNotElapsed
            | HuiFiError::InvalidPhaseTransition
            | HuiFiError::CycleNotReadyForAdvancement
            | HuiFiError::InvalidCyclePhase
            | HuiFiError::InvalidPhase
            | HuiFiError::CycleNotCompleted => ErrorKind::PhaseError,
            HuiFiError::PoolFull
            | HuiFiError::MemberAlreadyJoined
            | HuiFiError::MemberNotFound
            | HuiFiError::NotWhitelisted
            | HuiFiError::NotPoolMember => ErrorKind::MembershipError,
            HuiFiError::Unauthorized
            | HuiFiError::UnauthorizedAccess
            | HuiFiError::InvalidWinnerAccount
            | HuiFiError::NotPoolWinner => ErrorKind::AuthorizationError,
            HuiFiError::NoBids
            | HuiFiError::AlreadyBid
            | HuiFiError::InvalidBidAmount
            | HuiFiError::BidTooHigh => ErrorKind::BiddingError,
            HuiFiError::InsufficientContribution
            | HuiFiError::AlreadyContributed
            | HuiFiError::PendingContributions
            | HuiFiError::ContributionsPending => ErrorKind::ContributionError,
            HuiFiError::InsufficientCollateral
            | HuiFiError::InvalidSlashAmount
            | HuiFiError::MemberNotDefaulted
            | HuiFiError::MemberNotPaidYet
            | HuiFiError::MissingCollateralVault
            | HuiFiError::NoCollateralDeposited
            | HuiFiError::MemberAlreadyWithdrawed
            | HuiFiError::AlreadyDepositedCollateral
            | HuiFiError::CollateralNotDeposited => ErrorKind::CollateralError,
            HuiFiError::AlreadyReceivedPayout
            | HuiFiError::NotEligibleForPayout
            | HuiFiError::InsufficientVaultFunds
            | HuiFiError::InvalidPayoutAmount
            | HuiFiError::PayoutDelayNotElapsed
            | HuiFiError::MissingTreasury
            | HuiFiError::MissingPoolVault
            | HuiFiError::MissingTokenProgram
            | HuiFiError::CollateralRequired
            | HuiFiError::Overflow
            | HuiFiError::UnclaimedPayouts => ErrorKind::PayoutError,
        }
    }

    /// The family of this error.
    pub fn kind(&self) -> (k: ErrorKind)
        ensures
            k == self.kind_of(),
    {
        match self {
            HuiFiError::InvalidPoolConfig
            | HuiFiError::InvalidTokenAccountOwner
            | HuiFiError::TreasuryAccountAlreadyExists
            | HuiFiError::InvalidTreasuryAccount
            | HuiFiError::UnsupportedToken
            | HuiFiError::InvalidVault
            | HuiFiError::InvalidPoolType
            | HuiFiError::InvalidTokenMint
            | HuiFiError::InvalidPoolUUID
            | HuiFiError::ProtocolFeeExceedsLimit => ErrorKind::ConfigurationError,
            HuiFiError::InvalidPoolStatus
            | HuiFiError::InvalidCycleForContribution
            | HuiFiError::CycleDurationNotElapsed
            | HuiFiError::InvalidPhaseTransition
            | HuiFiError::CycleNotReadyForAdvancement
            | HuiFiError::InvalidCyclePhase
            | HuiFiError::InvalidPhase
            | HuiFiError::CycleNotCompleted => ErrorKind::PhaseError,
            HuiFiError::PoolFull
            | HuiFiError::MemberAlreadyJoined
            | HuiFiError::MemberNotFound
            | HuiFiError::NotWhitelisted
            | HuiFiError::NotPoolMember => ErrorKind::MembershipError,
            HuiFiError::Unauthorized
            | HuiFiError::UnauthorizedAccess
            | HuiFiError::InvalidWinnerAccount
            | HuiFiError::NotPoolWinner => ErrorKind::AuthorizationError,
            HuiFiError::NoBids
            | HuiFiError::AlreadyBid
            | HuiFiError::InvalidBidAmount
            | HuiFiError::BidTooHigh => ErrorKind::BiddingError,
            HuiFiError::InsufficientContribution
            | HuiFiError::AlreadyContributed
            | HuiFiError::PendingContributions
            | HuiFiError::ContributionsPending => ErrorKind::ContributionError,
            HuiFiError::InsufficientCollateral
            | HuiFiError::InvalidSlashAmount
            | HuiFiError::MemberNotDefaulted
            | HuiFiError::MemberNotPaidYet
            | HuiFiError::MissingCollateralVault
            | HuiFiError::NoCollateralDeposited
            | HuiFiError::MemberAlreadyWithdrawed
            | HuiFiError::AlreadyDepositedCollateral
            | HuiFiError::CollateralNotDeposited => ErrorKind::CollateralError,
            HuiFiError::AlreadyReceivedPayout
            | HuiFiError::NotEligibleForPayout
            | HuiFiError::InsufficientVaultFunds
            | HuiFiError::InvalidPayoutAmount
            | HuiFiError::PayoutDelayNotElapsed
            | HuiFiError::MissingTreasury
            | HuiFiError::MissingPoolVault
            | HuiFiError::MissingTokenProgram
            | HuiFiError::CollateralRequired
            | HuiFiError::Overflow
            | HuiFiError::UnclaimedPayouts => ErrorKind::PayoutError,
        }
    }
}

} // verus!
