//! The settlement pipeline: finalize with commit-reveal and fee transfer,
//! pay the winner, provision the reward pot, mint the per-round reward,
//! compute entitlements and pay them out.
//!
//! Every stage is gated on the round's status, so each can run only once and
//! only in the forced forward order; every stage either commits all of its
//! effects together or fails with a named error and changes nothing.

use vstd::prelude::*;
use vstd::arithmetic::div_mod::lemma_div_is_ordered;
use vstd::arithmetic::div_mod::lemma_div_multiples_vanish;
use vstd::arithmetic::div_mod::lemma_div_of0;
use vstd::arithmetic::div_mod::lemma_div_pos_is_pos;
use vstd::arithmetic::div_mod::lemma_fundamental_div_mod;
use vstd::arithmetic::div_mod::lemma_mod_division_less_than_divisor;
use vstd::arithmetic::mul::lemma_mul_inequality;

use crate::CASHINO_REWARD_PER_ROUND_UNITS;
use crate::errors::ErrorCode;
use crate::state::GameState;
use crate::state::PlayerCashinoRewards;
use crate::state::PlayerData;
use crate::state::Pubkey;
use crate::state::RoundCashinoRewardsPot;
use crate::state::RoundState;
use crate::state::RoundStatus;
use crate::state::SeedArray;
use crate::state::UserPlatformEscrow;
use crate::state::bytes32_eq;
use crate::state::lemma_amount_le_sum;
use crate::state::lemma_sum_rewards_push;
use crate::state::lemma_sum_rewards_update;
use crate::state::pubkey_eq;
use crate::state::sum_rewards;
use crate::winner::determine_winner;
use crate::winner::lemma_prefix_step;
use crate::winner::prefix_amounts;
use crate::winner::spec_determine_winner;

verus! {

/// The house fee owed on a pot: `floor(total_pot * fee_bps / 10000)`.
pub open spec fn spec_house_fee(total_pot: u64, fee_bps: u16) -> int {
    (total_pot * fee_bps) / 10000
}

/// A basis-point share never exceeds the whole.
pub proof fn lemma_fee_le_pot(total_pot: u64, fee_bps: u16)
    requires
        fee_bps <= 10000,
    ensures
        0 <= spec_house_fee(total_pot, fee_bps) <= total_pot,
{
    let p = total_pot as int;
    let b = fee_bps as int;
    assert(p * b == b * p) by (nonlinear_arith);
    lemma_mul_inequality(b, 10000, p);
    lemma_div_is_ordered(p * b, 10000 * p, 10000);
    lemma_div_multiples_vanish(p, 10000);
    assert(p * b >= 0) by (nonlinear_arith)
        requires
            p >= 0,
            b >= 0,
    ;
    lemma_div_is_ordered(0, p * b, 10000);
}

/// Error a finalize returns, if any: only the configured authority may
/// finalize, only an active round whose window has closed and which has at
/// least one bet, the reveal must match the stored commitment byte for byte,
/// the fee computation is checked arithmetic, and the fee transfer must keep
/// the pot store at its platform-mandated reserve.
pub open spec fn finalize_error(
    round: RoundState,
    game: GameState,
    authority: Pubkey,
    revealed_seed_arg: SeedArray,
    now: i64,
    pot_lamports: u64,
    house_wallet_lamports: u64,
    pot_rent_reserve: u64,
) -> Option<ErrorCode> {
    let fee = spec_house_fee(round.total_sol_pot, game.house_fee_basis_points);
    if game.authority != authority || !game.is_initialized {
        Some(ErrorCode::UnauthorizedAccess)
    } else if round.status != RoundStatus::Active {
        Some(ErrorCode::RoundNotActive)
    } else if now < round.end_time {
        Some(ErrorCode::RoundNotEnded)
    } else if round.players@.len() == 0 {
        Some(ErrorCode::NoPlayers)
    } else if revealed_seed_arg@ != round.seed_commitment@ {
        Some(ErrorCode::InvalidRevealedSeed)
    } else if round.total_sol_pot * game.house_fee_basis_points > u64::MAX {
        Some(ErrorCode::GameCalculationError)
    } else if fee > 0 && (pot_lamports < fee || pot_lamports - fee < pot_rent_reserve) {
        Some(ErrorCode::InsufficientFunds)
    } else if fee > 0 && house_wallet_lamports + fee > u64::MAX {
        Some(ErrorCode::CalculationError)
    } else {
        None
    }
}

/// Closes the betting phase of a round: verifies that the revealed seed
/// reproduces the stored commitment, selects the stake-weighted winner from
/// the revealed entropy, splits the pot exactly into house fee and winner
/// amount, transfers the fee from the pot store to the house wallet, and
/// advances the round to its settlement-ready stage.
///
/// The reveal is compared byte for byte against the stored commitment: the
/// "commitment" is the seed itself, not a one-way hash of it, so it is not
/// cryptographically hiding — anyone who reads it early can predict the
/// outcome. Whether the check was meant to be `hash(reveal) == commitment`
/// is an open design question; the comparison is deliberately direct
/// equality and must not be silently changed to a hash comparison.
pub fn process_finalize_round(
    round_state: &mut RoundState,
    game_state: &GameState,
    authority: &Pubkey,
    revealed_seed_arg: SeedArray,
    now: i64,
    pot_lamports: &mut u64,
    house_wallet_lamports: &mut u64,
    pot_rent_reserve: u64,
) -> (r: Result<(), ErrorCode>)
    requires
        old(round_state).wf(),
        game_state.wf(),
    ensures
        final(round_state).wf(),
        match r {
            Ok(()) => {
                let fee = spec_house_fee(
                    old(round_state).total_sol_pot,
                    game_state.house_fee_basis_points,
                );
                let widx = spec_determine_winner(
                    revealed_seed_arg@,
                    now,
                    old(round_state).total_sol_pot,
                    old(round_state).players@.len() as u8,
                    old(round_state).id,
                    old(round_state).players@,
                );
                &&& finalize_error(
                    *old(round_state),
                    *game_state,
                    *authority,
                    revealed_seed_arg,
                    now,
                    *old(pot_lamports),
                    *old(house_wallet_lamports),
                    pot_rent_reserve,
                ) is None
                &&& *final(round_state) == (RoundState {
                    revealed_seed: Some(revealed_seed_arg),
                    winner_index: Some(widx as u8),
                    house_sol_fee: fee as u64,
                    winner_sol_pubkey: old(round_state).players@[widx].pubkey,
                    winner_sol_amount: (old(round_state).total_sol_pot - fee) as u64,
                    winner_sol_claimed: false,
                    status: RoundStatus::AwaitingSolClaim,
                    ..*old(round_state)
                })
                &&& final(round_state).house_sol_fee + final(round_state).winner_sol_amount
                    == final(round_state).total_sol_pot
                &&& *final(pot_lamports) == *old(pot_lamports) - fee
                &&& *final(house_wallet_lamports) == *old(house_wallet_lamports) + fee
            },
            Err(e) => {
                &&& Some(e) == finalize_error(
                    *old(round_state),
                    *game_state,
                    *authority,
                    revealed_seed_arg,
                    now,
                    *old(pot_lamports),
                    *old(house_wallet_lamports),
                    pot_rent_reserve,
                )
                &&& *final(round_state) == *old(round_state)
                &&& *final(pot_lamports) == *old(pot_lamports)
                &&& *final(house_wallet_lamports) == *old(house_wallet_lamports)
            },
        },
{
    if !pubkey_eq(&game_state.authority, authority) || !game_state.is_initialized {
        return Err(ErrorCode::UnauthorizedAccess);
    }

    if !matches!(round_state.get_status(), RoundStatus::Active) {
        return Err(ErrorCode::RoundNotActive);
    }

    if now < round_state.end_time {
        return Err(ErrorCode::RoundNotEnded);
    }

    if round_state.players.len() == 0 {
        return Err(ErrorCode::NoPlayers);
    }

    if !bytes32_eq(&revealed_seed_arg, &round_state.seed_commitment) {
        return Err(ErrorCode::InvalidRevealedSeed);
    }

    let total_pot_value = round_state.total_sol_pot;
    let house_fee = match total_pot_value.checked_mul(
        game_state.house_fee_basis_points as u64,
    ) {
        Some(v) => v / 10_000,
        None => {
            return Err(ErrorCode::GameCalculationError);
        },
    };
    proof {
        lemma_fee_le_pot(total_pot_value, game_state.house_fee_basis_points);
    }

    if house_fee > 0 {
        if *pot_lamports < house_fee || *pot_lamports - house_fee < pot_rent_reserve {
            return Err(ErrorCode::InsufficientFunds);
        }
        if house_wallet_lamports.checked_add(house_fee).is_none() {
            return Err(ErrorCode::CalculationError);
        }
    }

    round_state.set_revealed_seed(Some(revealed_seed_arg));
    proof {
        // A round with a bet has a positive pot: every stake is positive.
        crate::state::lemma_sum_amounts_nonneg(round_state.players@.drop_last());
        assert(round_state.players@.last().amount > 0);
        assert(round_state.total_sol_pot > 0);
    }

    let winner_index = match determine_winner(round_state, now) {
        Ok(i) => i,
        Err(_) => {
            proof {
                assert(false);
            }
            return Err(ErrorCode::GameCalculationError);
        },
    };

    let winner_pubkey = round_state.players[winner_index as usize].pubkey;
    let net_winnings_for_winner = total_pot_value - house_fee;

    round_state.set_winner_index(Some(winner_index));
    round_state.house_sol_fee = house_fee;
    round_state.winner_sol_pubkey = winner_pubkey;
    round_state.winner_sol_amount = net_winnings_for_winner;
    round_state.winner_sol_claimed = false;
    round_state.set_status(RoundStatus::AwaitingSolClaim);

    if house_fee > 0 {
        *pot_lamports = *pot_lamports - house_fee;
        *house_wallet_lamports = *house_wallet_lamports + house_fee;
    }

    Ok(())
}

/// The lamports a winnings claim actually moves: the winner amount, clamped
/// to what the pot store can give up without dropping below its reserve.
pub open spec fn spec_claim_transfer(winnings: u64, pot_lamports: u64, reserve: u64) -> int {
    if winnings == 0 {
        0
    } else if pot_lamports <= reserve {
        0
    } else if pot_lamports - reserve < winnings {
        pot_lamports - reserve
    } else {
        winnings as int
    }
}

/// Error a winnings claim returns, if any: the caller must own the receiving
/// escrow and be the recorded winner, the round must have left its betting
/// phase, and the winnings may be paid out only once.
pub open spec fn claim_sol_error(
    round: RoundState,
    escrow: UserPlatformEscrow,
    winner_signer: Pubkey,
    pot_lamports: u64,
    escrow_lamports: u64,
    pot_rent_reserve: u64,
) -> Option<ErrorCode> {
    let t = spec_claim_transfer(round.winner_sol_amount, pot_lamports, pot_rent_reserve);
    if escrow.user_authority != winner_signer {
        Some(ErrorCode::UnauthorizedEscrowAccess)
    } else if round.status == RoundStatus::Active {
        Some(ErrorCode::RoundNotInAwaitingSolClaimState)
    } else if round.winner_sol_pubkey != winner_signer {
        Some(ErrorCode::UnauthorizedAccess)
    } else if round.winner_sol_claimed {
        Some(ErrorCode::SolWinningsAlreadyClaimed)
    } else if escrow.balance + t > u64::MAX || escrow_lamports + t > u64::MAX {
        Some(ErrorCode::CalculationError)
    } else {
        None
    }
}

/// Pays the round's winner: moves the winner amount from the pot store into
/// the winner's escrow, clamped so the pot store never drops below its
/// reserve (a shortfall yields a partial transfer, an empty store a no-op
/// success), then marks the winnings claimed and advances the round.
pub fn process_claim_sol_winnings(
    round_state: &mut RoundState,
    user_platform_escrow: &mut UserPlatformEscrow,
    winner_signer: &Pubkey,
    pot_lamports: &mut u64,
    escrow_lamports: &mut u64,
    pot_rent_reserve: u64,
) -> (r: Result<(), ErrorCode>)
    requires
        old(round_state).wf(),
    ensures
        final(round_state).wf(),
        match r {
            Ok(()) => {
                let t = spec_claim_transfer(
                    old(round_state).winner_sol_amount,
                    *old(pot_lamports),
                    pot_rent_reserve,
                );
                &&& claim_sol_error(
                    *old(round_state),
                    *old(user_platform_escrow),
                    *winner_signer,
                    *old(pot_lamports),
                    *old(escrow_lamports),
                    pot_rent_reserve,
                ) is None
                &&& *final(round_state) == (RoundState {
                    winner_sol_claimed: true,
                    status: RoundStatus::SolClaimed,
                    ..*old(round_state)
                })
                &&& *final(user_platform_escrow) == (UserPlatformEscrow {
                    balance: (old(user_platform_escrow).balance + t) as u64,
                    ..*old(user_platform_escrow)
                })
                &&& *final(pot_lamports) == *old(pot_lamports) - t
                &&& *final(pot_lamports) >= pot_rent_reserve || t == 0
                &&& *final(escrow_lamports) == *old(escrow_lamports) + t
            },
            Err(e) => {
                &&& Some(e) == claim_sol_error(
                    *old(round_state),
                    *old(user_platform_escrow),
                    *winner_signer,
                    *old(pot_lamports),
                    *old(escrow_lamports),
                    pot_rent_reserve,
                )
                &&& *final(round_state) == *old(round_state)
                &&& *final(user_platform_escrow) == *old(user_platform_escrow)
                &&& *final(pot_lamports) == *old(pot_lamports)
                &&& *final(escrow_lamports) == *old(escrow_lamports)
            },
        },
{
    if !pubkey_eq(&user_platform_escrow.user_authority, winner_signer) {
        return Err(ErrorCode::UnauthorizedEscrowAccess);
    }

    if matches!(round_state.get_status(), RoundStatus::Active) {
        return Err(ErrorCode::RoundNotInAwaitingSolClaimState);
    }

    if !pubkey_eq(&round_state.winner_sol_pubkey, winner_signer) {
        return Err(ErrorCode::UnauthorizedAccess);
    }

    if round_state.winner_sol_claimed {
        return Err(ErrorCode::SolWinningsAlreadyClaimed);
    }

    let winnings_amount = round_state.winner_sol_amount;
    let amount_to_actually_transfer: u64 = if winnings_amount == 0 {
        0
    } else if *pot_lamports <= pot_rent_reserve {
        0
    } else {
        let available_to_transfer_from_pot = *pot_lamports - pot_rent_reserve;
        if available_to_transfer_from_pot < winnings_amount {
            available_to_transfer_from_pot
        } else {
            winnings_amount
        }
    };

    let new_balance = match user_platform_escrow.balance.checked_add(
        amount_to_actually_transfer,
    ) {
        Some(v) => v,
        None => {
            return Err(ErrorCode::CalculationError);
        },
    };
    let new_escrow_lamports = match escrow_lamports.checked_add(amount_to_actually_transfer) {
        Some(v) => v,
        None => {
            return Err(ErrorCode::CalculationError);
        },
    };

    *pot_lamports = *pot_lamports - amount_to_actually_transfer;
    *escrow_lamports = new_escrow_lamports;
    user_platform_escrow.balance = new_balance;
    round_state.winner_sol_claimed = true;
    round_state.set_status(RoundStatus::SolClaimed);
    Ok(())
}

/// Winnings are paid at most once: after a successful claim, any further
/// claim against the round fails with the already-claimed error, whatever
/// escrow, store balances or reserve it is attempted with.
pub proof fn lemma_claim_winnings_once(
    round: RoundState,
    escrow: UserPlatformEscrow,
    winner_signer: Pubkey,
    pot_lamports: u64,
    escrow_lamports: u64,
    pot_rent_reserve: u64,
    escrow2: UserPlatformEscrow,
    pot_lamports2: u64,
    escrow_lamports2: u64,
    pot_rent_reserve2: u64,
)
    requires
        claim_sol_error(
            round,
            escrow,
            winner_signer,
            pot_lamports,
            escrow_lamports,
            pot_rent_reserve,
        ) is None,
        escrow2.user_authority == winner_signer,
    ensures
        claim_sol_error(
            RoundState { winner_sol_claimed: true, status: RoundStatus::SolClaimed, ..round },
            escrow2,
            winner_signer,
            pot_lamports2,
            escrow_lamports2,
            pot_rent_reserve2,
        ) == Some(ErrorCode::SolWinningsAlreadyClaimed),
{
}

/// Creates the round's reward pot record and advances the round. Gated on
/// the configured authority and on the pot having been claimed.
pub fn process_create_reward_pot_accounts(
    round_state: &mut RoundState,
    game_state: &GameState,
    authority: &Pubkey,
    round_id_for_pdas: u64,
) -> (r: Result<RoundCashinoRewardsPot, ErrorCode>)
    requires
        old(round_state).wf(),
    ensures
        final(round_state).wf(),
        match r {
            Ok(pot) => {
                &&& game_state.authority == *authority
                &&& old(round_state).status == RoundStatus::SolClaimed
                &&& pot == (RoundCashinoRewardsPot {
                    round_id: round_id_for_pdas,
                    total_minted_for_round: 0,
                })
                &&& *final(round_state) == (RoundState {
                    status: RoundStatus::RewardPotAccountsCreated,
                    ..*old(round_state)
                })
            },
            Err(e) => {
                &&& *final(round_state) == *old(round_state)
                &&& if game_state.authority != *authority {
                    e == ErrorCode::UnauthorizedAccess
                } else {
                    e == ErrorCode::RoundNotInCorrectState && old(round_state).status
                        != RoundStatus::SolClaimed
                }
            },
        },
{
    if !pubkey_eq(&game_state.authority, authority) {
        return Err(ErrorCode::UnauthorizedAccess);
    }

    if !matches!(round_state.get_status(), RoundStatus::SolClaimed) {
        return Err(ErrorCode::RoundNotInCorrectState);
    }

    round_state.set_status(RoundStatus::RewardPotAccountsCreated);
    Ok(RoundCashinoRewardsPot { round_id: round_id_for_pdas, total_minted_for_round: 0 })
}

/// Error a mint returns, if any: only the configured authority, only once
/// the reward pot exists, and the pot's token balance update is checked
/// arithmetic.
pub open spec fn mint_reward_error(
    round: RoundState,
    game: GameState,
    authority: Pubkey,
    reward_pot_token_balance: u64,
) -> Option<ErrorCode> {
    if game.authority != authority {
        Some(ErrorCode::UnauthorizedAccess)
    } else if round.status != RoundStatus::RewardPotAccountsCreated {
        Some(ErrorCode::RoundNotInCorrectState)
    } else if reward_pot_token_balance + CASHINO_REWARD_PER_ROUND_UNITS > u64::MAX {
        Some(ErrorCode::CalculationError)
    } else {
        None
    }
}

/// Mints the fixed per-round reward amount into the reward pot's token
/// balance, records it on the pot record and the round, and advances the
/// round.
pub fn process_mint_tokens_to_reward_pot(
    round_state: &mut RoundState,
    round_cashino_rewards_pot: &mut RoundCashinoRewardsPot,
    game_state: &GameState,
    authority: &Pubkey,
    reward_pot_token_balance: &mut u64,
) -> (r: Result<(), ErrorCode>)
    requires
        old(round_state).wf(),
    ensures
        final(round_state).wf(),
        match r {
            Ok(()) => {
                &&& mint_reward_error(
                    *old(round_state),
                    *game_state,
                    *authority,
                    *old(reward_pot_token_balance),
                ) is None
                &&& *final(round_state) == (RoundState {
                    total_cashino_minted_for_round: CASHINO_REWARD_PER_ROUND_UNITS,
                    status: RoundStatus::TokensMintedForRewards,
                    ..*old(round_state)
                })
                &&& *final(round_cashino_rewards_pot) == (RoundCashinoRewardsPot {
                    total_minted_for_round: CASHINO_REWARD_PER_ROUND_UNITS,
                    ..*old(round_cashino_rewards_pot)
                })
                &&& *final(reward_pot_token_balance) == *old(reward_pot_token_balance)
                    + CASHINO_REWARD_PER_ROUND_UNITS
            },
            Err(e) => {
                &&& Some(e) == mint_reward_error(
                    *old(round_state),
                    *game_state,
                    *authority,
                    *old(reward_pot_token_balance),
                )
                &&& *final(round_state) == *old(round_state)
                &&& *final(round_cashino_rewards_pot) == *old(round_cashino_rewards_pot)
                &&& *final(reward_pot_token_balance) == *old(reward_pot_token_balance)
            },
        },
{
    if !pubkey_eq(&game_state.authority, authority) {
        return Err(ErrorCode::UnauthorizedAccess);
    }

    if !matches!(round_state.get_status(), RoundStatus::RewardPotAccountsCreated) {
        return Err(ErrorCode::RoundNotInCorrectState);
    }

    let new_token_balance = match reward_pot_token_balance.checked_add(
        CASHINO_REWARD_PER_ROUND_UNITS,
    ) {
        Some(v) => v,
        None => {
            return Err(ErrorCode::CalculationError);
        },
    };

    round_cashino_rewards_pot.total_minted_for_round = CASHINO_REWARD_PER_ROUND_UNITS;
    *reward_pot_token_balance = new_token_balance;
    round_state.total_cashino_minted_for_round = CASHINO_REWARD_PER_ROUND_UNITS;
    round_state.set_status(RoundStatus::TokensMintedForRewards);
    Ok(())
}

/// A player's reward entitlement: its stake's exact share of the minted
/// amount, rounded down; zero stakes (and an empty pot) earn nothing.
pub open spec fn spec_entitlement(amount: u64, minted: u64, pot: u64) -> int {
    if pot == 0 || amount == 0 {
        0
    } else {
        (amount * minted) / (pot as int)
    }
}

/// The entitlement entry written for one bet entry.
pub open spec fn spec_entitlement_entry(
    p: PlayerData,
    minted: u64,
    pot: u64,
) -> PlayerCashinoRewards {
    PlayerCashinoRewards {
        player: p.pubkey,
        sol_bet_amount: p.amount,
        cashino_reward_amount: spec_entitlement(p.amount, minted, pot) as u64,
        claimed: false,
    }
}

/// A stake's share of the minted amount never exceeds the minted amount.
pub proof fn lemma_entitlement_le_minted(amount: int, minted: int, pot: int)
    requires
        0 <= amount <= pot,
        0 <= minted,
        0 < pot,
    ensures
        0 <= (amount * minted) / pot <= minted,
{
    lemma_mul_inequality(amount, pot, minted);
    lemma_div_is_ordered(amount * minted, pot * minted, pot);
    lemma_div_multiples_vanish(minted, pot);
    assert(amount * minted >= 0) by (nonlinear_arith)
        requires
            amount >= 0,
            minted >= 0,
    ;
    lemma_div_pos_is_pos(amount * minted, pot);
}

/// Division distributes sub-additively over a sum of numerators.
pub proof fn lemma_div_add_le(x: int, y: int, d: int)
    requires
        0 <= x,
        0 <= y,
        0 < d,
    ensures
        x / d + y / d <= (x + y) / d,
{
    lemma_fundamental_div_mod(x, d);
    lemma_fundamental_div_mod(y, d);
    lemma_mod_division_less_than_divisor(x, d);
    lemma_mod_division_less_than_divisor(y, d);
    let q = x / d + y / d;
    vstd::arithmetic::mul::lemma_mul_is_distributive_add(d, x / d, y / d);
    assert(d * q == d * (x / d) + d * (y / d));
    assert(d * q <= x + y);
    lemma_div_multiples_vanish(q, d);
    lemma_div_is_ordered(d * q, x + y, d);
}

/// Computes every player's reward entitlement: each bet entry with a
/// positive stake earns `floor(stake * total_minted / total_pot)` reward
/// units, computed in a wide intermediate so the product cannot overflow;
/// zero stakes earn zero. With an empty pot or no players, every entry is
/// zero and the stage still advances. The entitlements always sum to at most
/// the minted amount. Gated on the minting stage having run.
#[verifier::loop_isolation(false)]
pub fn process_calculate_reward_entitlements(round_state: &mut RoundState) -> (r: Result<
    (),
    ErrorCode,
>)
    requires
        old(round_state).wf(),
    ensures
        final(round_state).wf(),
        match r {
            Ok(()) => {
                &&& old(round_state).status == RoundStatus::TokensMintedForRewards
                &&& final(round_state).player_cashino_rewards@.len() == old(round_state).players@.len()
                &&& forall|i: int|
                    0 <= i < old(round_state).players@.len() ==> final(round_state).player_cashino_rewards@[i] == spec_entitlement_entry(
                        old(round_state).players@[i],
                        old(round_state).total_cashino_minted_for_round,
                        old(round_state).total_sol_pot,
                    )
                &&& sum_rewards(final(round_state).player_cashino_rewards@) <= old(round_state).total_cashino_minted_for_round
                &&& *final(round_state) == (RoundState {
                    player_cashino_rewards: final(round_state).player_cashino_rewards,
                    status: RoundStatus::RewardsProcessed,
                    ..*old(round_state)
                })
            },
            Err(e) => {
                &&& e == ErrorCode::RoundNotInCorrectState
                &&& old(round_state).status != RoundStatus::TokensMintedForRewards
                &&& *final(round_state) == *old(round_state)
            },
        },
{
    if !matches!(round_state.get_status(), RoundStatus::TokensMintedForRewards) {
        return Err(ErrorCode::RoundNotInCorrectState);
    }

    let total_cashino_minted_for_round = round_state.total_cashino_minted_for_round;
    let total_pot = round_state.total_sol_pot;
    let ghost players_seq = round_state.players@;
    let ghost m = total_cashino_minted_for_round as int;
    let ghost p = total_pot as int;

    let mut rewards: Vec<PlayerCashinoRewards> = Vec::new();

    if total_pot > 0 && round_state.players.len() > 0 {
        proof {
            lemma_div_of0(p);
        }
        let mut i: usize = 0;
        while i < round_state.players.len()
            invariant
                i <= players_seq.len(),
                rewards@.len() == i,
                forall|j: int|
                    0 <= j < i ==> rewards@[j] == spec_entitlement_entry(
                        players_seq[j],
                        total_cashino_minted_for_round,
                        total_pot,
                    ),
                sum_rewards(rewards@) <= prefix_amounts(players_seq, i as int) * m / p,
            decreases players_seq.len() - i,
        {
            let player_bet_data = round_state.players[i];
            proof {
                lemma_amount_le_sum(players_seq, i as int);
                lemma_entitlement_le_minted(player_bet_data.amount as int, m, p);
            }
            let calculated_reward: u64 = if player_bet_data.amount == 0 {
                0
            } else {
                let product = match (player_bet_data.amount as u128).checked_mul(
                    total_cashino_minted_for_round as u128,
                ) {
                    Some(v) => v,
                    None => {
                        proof {
                            assert((player_bet_data.amount as int) * m <= u128::MAX)
                                by (nonlinear_arith)
                                requires
                                    0 <= (player_bet_data.amount as int) <= u64::MAX,
                                    0 <= m <= u64::MAX,
                            ;
                            assert(false);
                        }
                        return Err(ErrorCode::GameCalculationError);
                    },
                };
                let quotient = match product.checked_div(total_pot as u128) {
                    Some(v) => v,
                    None => {
                        proof {
                            assert(false);
                        }
                        return Err(ErrorCode::GameCalculationError);
                    },
                };
                quotient as u64
            };

            let entry = PlayerCashinoRewards {
                player: player_bet_data.pubkey,
                sol_bet_amount: player_bet_data.amount,
                cashino_reward_amount: calculated_reward,
                claimed: false,
            };
            proof {
                lemma_sum_rewards_push(rewards@, entry);
                lemma_prefix_step(players_seq, i as int);
                let pre = prefix_amounts(players_seq, i as int);
                let a = players_seq[i as int].amount as int;
                crate::winner::lemma_prefix_le_total(players_seq, i as int);
                crate::state::lemma_sum_amounts_nonneg(players_seq.take(i as int));
                assert(pre * m >= 0) by (nonlinear_arith)
                    requires
                        pre >= 0,
                        m >= 0,
                ;
                assert(a * m >= 0) by (nonlinear_arith)
                    requires
                        a >= 0,
                        m >= 0,
                ;
                lemma_div_add_le(pre * m, a * m, p);
                assert((pre + a) * m == pre * m + a * m) by (nonlinear_arith);
            }
            rewards.push(entry);
            i = i + 1;
        }
        proof {
            assert(players_seq.take(players_seq.len() as int) =~= players_seq);
            lemma_div_multiples_vanish(m, p);
        }
    } else {
        let mut i: usize = 0;
        while i < round_state.players.len()
            invariant
                i <= players_seq.len(),
                rewards@.len() == i,
                total_pot == 0 || players_seq.len() == 0,
                forall|j: int|
                    0 <= j < i ==> rewards@[j] == spec_entitlement_entry(
                        players_seq[j],
                        total_cashino_minted_for_round,
                        total_pot,
                    ),
                sum_rewards(rewards@) == 0,
            decreases players_seq.len() - i,
        {
            let player_bet_data = round_state.players[i];
            let entry = PlayerCashinoRewards {
                player: player_bet_data.pubkey,
                sol_bet_amount: player_bet_data.amount,
                cashino_reward_amount: 0,
                claimed: false,
            };
            proof {
                lemma_sum_rewards_push(rewards@, entry);
            }
            rewards.push(entry);
            i = i + 1;
        }
    }

    round_state.player_cashino_rewards = rewards;
    round_state.set_status(RoundStatus::RewardsProcessed);
    Ok(())
}

/// First index at or after `i` whose entitlement entry belongs to `player`;
/// the length if none does.
pub open spec fn find_reward(rewards: Seq<PlayerCashinoRewards>, player: Pubkey, i: int) -> int
    recommends
        0 <= i <= rewards.len(),
    decreases rewards.len() - i,
    when 0 <= i <= rewards.len()
{
    if i >= rewards.len() {
        rewards.len() as int
    } else if rewards[i].player == player {
        i
    } else {
        find_reward(rewards, player, i + 1)
    }
}

/// What the scan finds: the first matching entry, with none before it.
pub proof fn lemma_find_reward_props(rewards: Seq<PlayerCashinoRewards>, player: Pubkey, i: int)
    requires
        0 <= i <= rewards.len(),
    ensures
        i <= find_reward(rewards, player, i) <= rewards.len(),
        find_reward(rewards, player, i) < rewards.len() ==> rewards[find_reward(
            rewards,
            player,
            i,
        )].player == player,
        forall|j: int|
            i <= j < find_reward(rewards, player, i) ==> rewards[j].player != player,
    decreases rewards.len() - i,
{
    if i < rewards.len() && rewards[i].player != player {
        lemma_find_reward_props(rewards, player, i + 1);
    }
}

/// The scan finds the first match.
pub proof fn lemma_find_reward_first(
    rewards: Seq<PlayerCashinoRewards>,
    player: Pubkey,
    i: int,
    k: int,
)
    requires
        0 <= i <= k < rewards.len(),
        rewards[k].player == player,
        forall|j: int| i <= j < k ==> rewards[j].player != player,
    ensures
        find_reward(rewards, player, i) == k,
    decreases k - i,
{
    if i < k {
        lemma_find_reward_first(rewards, player, i + 1, k);
    }
}

/// Error a reward claim returns, if any: the round must have left its
/// betting phase, the caller must hold an entitlement entry (none exist
/// before the entitlement stage has run), the entry may be paid only once,
/// the reward pot must cover it, and the payout is checked arithmetic.
pub open spec fn claim_rewards_error(
    round: RoundState,
    player: Pubkey,
    reward_pot_token_balance: u64,
    player_token_balance: u64,
) -> Option<ErrorCode> {
    let rewards = round.player_cashino_rewards@;
    let idx = find_reward(rewards, player, 0);
    if round.status == RoundStatus::Active {
        Some(ErrorCode::RoundStillActive)
    } else if idx == rewards.len() {
        Some(ErrorCode::NotEligibleForReward)
    } else if rewards[idx].claimed {
        Some(ErrorCode::RewardAlreadyClaimed)
    } else if rewards[idx].cashino_reward_amount == 0 {
        None
    } else if reward_pot_token_balance < rewards[idx].cashino_reward_amount {
        Some(ErrorCode::InsufficientFunds)
    } else if player_token_balance + rewards[idx].cashino_reward_amount > u64::MAX {
        Some(ErrorCode::CalculationError)
    } else {
        None
    }
}

/// The reward units a claim actually moves: the entitlement, or nothing for
/// a zero entitlement.
pub open spec fn spec_reward_transfer(round: RoundState, player: Pubkey) -> int {
    let rewards = round.player_cashino_rewards@;
    let idx = find_reward(rewards, player, 0);
    if idx < rewards.len() {
        rewards[idx].cashino_reward_amount as int
    } else {
        0
    }
}

/// Pays out the caller's reward entitlement: moves the entitled amount from
/// the reward pot's token balance to the caller's token balance and marks
/// the entry claimed. A zero entitlement is marked claimed with no transfer.
/// Available any time after minting; before the entitlement stage has run no
/// entry exists, so the claim fails as not eligible.
#[verifier::loop_isolation(false)]
pub fn process_claim_cashino_rewards(
    round_state: &mut RoundState,
    player: &Pubkey,
    reward_pot_token_balance: &mut u64,
    player_token_balance: &mut u64,
) -> (r: Result<(), ErrorCode>)
    requires
        old(round_state).wf(),
    ensures
        final(round_state).wf(),
        match r {
            Ok(()) => {
                let rewards = old(round_state).player_cashino_rewards@;
                let idx = find_reward(rewards, *player, 0);
                let t = spec_reward_transfer(*old(round_state), *player);
                &&& claim_rewards_error(
                    *old(round_state),
                    *player,
                    *old(reward_pot_token_balance),
                    *old(player_token_balance),
                ) is None
                &&& 0 <= idx < rewards.len()
                &&& final(round_state).player_cashino_rewards@ == rewards.update(
                    idx,
                    (PlayerCashinoRewards { claimed: true, ..rewards[idx] }),
                )
                &&& *final(round_state) == (RoundState {
                    player_cashino_rewards: final(round_state).player_cashino_rewards,
                    ..*old(round_state)
                })
                &&& *final(reward_pot_token_balance) == *old(reward_pot_token_balance) - t
                &&& *final(player_token_balance) == *old(player_token_balance) + t
            },
            Err(e) => {
                &&& Some(e) == claim_rewards_error(
                    *old(round_state),
                    *player,
                    *old(reward_pot_token_balance),
                    *old(player_token_balance),
                )
                &&& *final(round_state) == *old(round_state)
                &&& *final(reward_pot_token_balance) == *old(reward_pot_token_balance)
                &&& *final(player_token_balance) == *old(player_token_balance)
            },
        },
{
    if matches!(round_state.get_status(), RoundStatus::Active) {
        return Err(ErrorCode::RoundStillActive);
    }

    let ghost rewards_seq = round_state.player_cashino_rewards@;
    let ghost the_index = find_reward(rewards_seq, *player, 0);

    let mut reward_index: usize = 0;
    let mut reward_found: bool = false;
    let mut i: usize = 0;
    while i < round_state.player_cashino_rewards.len()
        invariant
            i <= rewards_seq.len(),
            reward_found ==> (reward_index as int) < i as int
                && rewards_seq[reward_index as int].player == *player && the_index
                == reward_index as int,
            !reward_found ==> the_index == find_reward(rewards_seq, *player, i as int),
        decreases rewards_seq.len() - i,
    {
        if !reward_found && pubkey_eq(&round_state.player_cashino_rewards[i].player, player) {
            reward_index = i;
            reward_found = true;
        }
        i = i + 1;
    }

    if !reward_found {
        return Err(ErrorCode::NotEligibleForReward);
    }

    let entry = round_state.player_cashino_rewards[reward_index];
    if entry.claimed {
        return Err(ErrorCode::RewardAlreadyClaimed);
    }

    let amount_to_claim = entry.cashino_reward_amount;
    if amount_to_claim > 0 {
        if *reward_pot_token_balance < amount_to_claim {
            return Err(ErrorCode::InsufficientFunds);
        }
        let new_player_balance = match player_token_balance.checked_add(amount_to_claim) {
            Some(v) => v,
            None => {
                return Err(ErrorCode::CalculationError);
            },
        };
        *reward_pot_token_balance = *reward_pot_token_balance - amount_to_claim;
        *player_token_balance = new_player_balance;
    }

    let claimed_entry = PlayerCashinoRewards { claimed: true, ..entry };
    proof {
        lemma_sum_rewards_update(rewards_seq, reward_index as int, claimed_entry);
    }
    round_state.player_cashino_rewards[reward_index] = claimed_entry;
    Ok(())
}

/// A reward entitlement is paid at most once: after a successful claim, any
/// further claim by the same player fails with the already-claimed error,
/// whatever token balances it is attempted with.
pub proof fn lemma_claim_rewards_once(
    round: RoundState,
    round2: RoundState,
    player: Pubkey,
    reward_pot_token_balance: u64,
    player_token_balance: u64,
    reward_pot_token_balance2: u64,
    player_token_balance2: u64,
)
    requires
        claim_rewards_error(round, player, reward_pot_token_balance, player_token_balance)
            is None,
        round2.status == round.status,
        round2.player_cashino_rewards@ == round.player_cashino_rewards@.update(
            find_reward(round.player_cashino_rewards@, player, 0),
            (PlayerCashinoRewards {
                claimed: true,
                ..round.player_cashino_rewards@[find_reward(round.player_cashino_rewards@, player, 0)]
            }),
        ),
    ensures
        claim_rewards_error(
            round2,
            player,
            reward_pot_token_balance2,
            player_token_balance2,
        ) == Some(ErrorCode::RewardAlreadyClaimed),
{
    let rewards = round.player_cashino_rewards@;
    let idx = find_reward(rewards, player, 0);
    lemma_find_reward_props(rewards, player, 0);
    lemma_find_reward_first(round2.player_cashino_rewards@, player, 0, idx);
}

} // verus!
