//! Error taxonomy: validation, authorization, wrong-state, arithmetic and
//! funds failures. Every failing operation returns one of these and leaves
//! all state untouched.

use vstd::prelude::*;

verus! {

/// Named failure causes. Wrong-state errors name the stage they expected.
#[derive(Clone, Copy, Debug, PartialEq, Eq, Structural)]
pub enum ErrorCode {
    InvalidMintAuthorityPDA,
    BumpSeedNotInHashMap,
    TransferAmountLessThanFee,
    FeeCalculationFailed,
    InvalidMintAccount,
    RoundNotActive,
    RoundAlreadyActive,
    RoundNotEnded,
    InvalidBetAmount,
    InsufficientFunds,
    UnauthorizedAccess,
    InvalidSeedCommitment,
    InvalidRevealedSeed,
    NoPlayers,
    MaxPlayersReached,
    BetWindowClosed,
    InvalidTimeParameters,
    SpinInProgress,
    CalculationError,
    InvalidHouseFee,
    InvalidHouseFeeConfig,
    InvalidRoundIdForSeed,
    GameCalculationError,
    NoPlayersInRound,
    PdaBumpError,
    RoundStillActive,
    WinnerNotDetermined,
    RewardAlreadyClaimed,
    NotEligibleForReward,
    InvalidGameState,
    RoundNotInCorrectStateForRewardDistribution,
    InvalidTokenProgram,
    RoundNotInCorrectState,
    InvalidStatusDiscriminant,
    UnauthorizedEscrowAccess,
    InvalidDepositAmount,
    InvalidWithdrawalAmount,
    InsufficientPlatformBalance,
    WithdrawWouldMakeEscrowRentDeficient,
    InvalidHouseWalletAddress,
    RoundNotInAwaitingSolClaimState,
    SolWinningsAlreadyClaimed,
}

} // verus!
