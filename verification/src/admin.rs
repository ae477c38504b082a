//! Configuration and round-opening operations, all gated on the configured
//! authority: creating the game configuration, starting a new round against
//! the monotonic round counter, and updating the fee rate or house wallet.

use vstd::prelude::*;

use crate::MAX_GAME_HOUSE_FEE_BASIS_POINTS;
use crate::MAX_ROUND_DURATION;
use crate::MIN_ROUND_DURATION;
use crate::errors::ErrorCode;
use crate::state::GameState;
use crate::state::Pubkey;
use crate::state::RoundState;
use crate::state::RoundStatus;
use crate::state::SeedArray;
use crate::state::pubkey_eq;

verus! {

/// Creates the game configuration: authority, house wallet, reward-token
/// mint and fee rate, with the round counter at zero. Rejects a fee rate
/// above the cap.
pub fn process_initialize_game_settings(
    authority: &Pubkey,
    house_wallet: &Pubkey,
    cashino_token_mint: &Pubkey,
    house_fee_basis_points: u16,
) -> (r: Result<GameState, ErrorCode>)
    ensures
        match r {
            Ok(g) => {
                &&& house_fee_basis_points <= MAX_GAME_HOUSE_FEE_BASIS_POINTS
                &&& g == (GameState {
                    authority: *authority,
                    house_wallet: *house_wallet,
                    house_fee_basis_points,
                    round_counter: 0,
                    is_initialized: true,
                    cashino_mint: *cashino_token_mint,
                })
                &&& g.wf()
            },
            Err(e) => {
                &&& e == ErrorCode::InvalidHouseFeeConfig
                &&& house_fee_basis_points > MAX_GAME_HOUSE_FEE_BASIS_POINTS
            },
        },
{
    if house_fee_basis_points > MAX_GAME_HOUSE_FEE_BASIS_POINTS {
        return Err(ErrorCode::InvalidHouseFeeConfig);
    }

    Ok(
        GameState {
            authority: *authority,
            house_wallet: *house_wallet,
            house_fee_basis_points,
            round_counter: 0,
            is_initialized: true,
            cashino_mint: *cashino_token_mint,
        },
    )
}

/// Error starting a round returns, if any: only the configured authority,
/// the client's expected round id must equal the counter, the duration must
/// lie in the allowed band, and the counter increment and window end are
/// checked arithmetic.
pub open spec fn start_round_error(
    game: GameState,
    authority: Pubkey,
    round_duration: i64,
    round_id_for_seed: u64,
    now: i64,
) -> Option<ErrorCode> {
    if game.authority != authority || !game.is_initialized {
        Some(ErrorCode::UnauthorizedAccess)
    } else if game.round_counter != round_id_for_seed {
        Some(ErrorCode::InvalidRoundIdForSeed)
    } else if round_duration < MIN_ROUND_DURATION || round_duration > MAX_ROUND_DURATION {
        Some(ErrorCode::InvalidTimeParameters)
    } else if game.round_counter + 1 > u64::MAX || now + round_duration > i64::MAX {
        Some(ErrorCode::CalculationError)
    } else {
        None
    }
}

/// Opens a new round: advances the monotonic round counter and returns a
/// fresh active round carrying the new counter value as its id, the betting
/// window `[now, now + duration]` and the given seed commitment.
pub fn process_start_new_round(
    game_state: &mut GameState,
    authority: &Pubkey,
    seed_commitment: SeedArray,
    round_duration: i64,
    round_id_for_seed: u64,
    now: i64,
) -> (r: Result<RoundState, ErrorCode>)
    requires
        old(game_state).wf(),
    ensures
        final(game_state).wf(),
        match r {
            Ok(round) => {
                &&& start_round_error(
                    *old(game_state),
                    *authority,
                    round_duration,
                    round_id_for_seed,
                    now,
                ) is None
                &&& *final(game_state) == (GameState {
                    round_counter: (old(game_state).round_counter + 1) as u64,
                    ..*old(game_state)
                })
                &&& round.id == old(game_state).round_counter + 1
                &&& round.start_time == now
                &&& round.end_time == now + round_duration
                &&& round.seed_commitment == seed_commitment
                &&& round.revealed_seed is None
                &&& round.total_sol_pot == 0
                &&& round.players@.len() == 0
                &&& round.player_cashino_rewards@.len() == 0
                &&& round.total_cashino_minted_for_round == 0
                &&& round.status == RoundStatus::Active
                &&& round.winner_index is None
                &&& round.house_sol_fee == 0
                &&& round.winner_sol_amount == 0
                &&& !round.winner_sol_claimed
                &&& round.wf()
            },
            Err(e) => {
                &&& Some(e) == start_round_error(
                    *old(game_state),
                    *authority,
                    round_duration,
                    round_id_for_seed,
                    now,
                )
                &&& *final(game_state) == *old(game_state)
            },
        },
{
    if !pubkey_eq(&game_state.authority, authority) || !game_state.is_initialized {
        return Err(ErrorCode::UnauthorizedAccess);
    }

    if game_state.round_counter != round_id_for_seed {
        return Err(ErrorCode::InvalidRoundIdForSeed);
    }

    if round_duration < MIN_ROUND_DURATION || round_duration > MAX_ROUND_DURATION {
        return Err(ErrorCode::InvalidTimeParameters);
    }

    let new_round_id = match game_state.round_counter.checked_add(1) {
        Some(v) => v,
        None => {
            return Err(ErrorCode::CalculationError);
        },
    };
    let end_time = match now.checked_add(round_duration) {
        Some(v) => v,
        None => {
            return Err(ErrorCode::CalculationError);
        },
    };

    game_state.round_counter = new_round_id;
    Ok(RoundState::new_round(new_round_id, now, end_time, seed_commitment))
}

/// Updates the house fee rate, gated on the configured authority and the fee
/// cap.
pub fn process_update_game_fee(
    game_state: &mut GameState,
    authority: &Pubkey,
    new_fee_basis_points: u16,
) -> (r: Result<(), ErrorCode>)
    requires
        old(game_state).wf(),
    ensures
        final(game_state).wf(),
        match r {
            Ok(()) => {
                &&& old(game_state).authority == *authority
                &&& new_fee_basis_points <= MAX_GAME_HOUSE_FEE_BASIS_POINTS
                &&& *final(game_state) == (GameState {
                    house_fee_basis_points: new_fee_basis_points,
                    ..*old(game_state)
                })
            },
            Err(e) => {
                &&& *final(game_state) == *old(game_state)
                &&& if old(game_state).authority != *authority {
                    e == ErrorCode::UnauthorizedAccess
                } else {
                    e == ErrorCode::InvalidHouseFeeConfig && new_fee_basis_points
                        > MAX_GAME_HOUSE_FEE_BASIS_POINTS
                }
            },
        },
{
    if !pubkey_eq(&game_state.authority, authority) {
        return Err(ErrorCode::UnauthorizedAccess);
    }

    if new_fee_basis_points > MAX_GAME_HOUSE_FEE_BASIS_POINTS {
        return Err(ErrorCode::InvalidHouseFeeConfig);
    }

    game_state.house_fee_basis_points = new_fee_basis_points;
    Ok(())
}

/// Points the fee collection at a new house wallet, gated on the configured
/// authority.
pub fn process_update_game_house_wallet(
    game_state: &mut GameState,
    authority: &Pubkey,
    new_house_wallet: &Pubkey,
) -> (r: Result<(), ErrorCode>)
    requires
        old(game_state).wf(),
    ensures
        final(game_state).wf(),
        match r {
            Ok(()) => {
                &&& old(game_state).authority == *authority
                &&& *final(game_state) == (GameState {
                    house_wallet: *new_house_wallet,
                    ..*old(game_state)
                })
            },
            Err(e) => {
                &&& e == ErrorCode::UnauthorizedAccess
                &&& old(game_state).authority != *authority
                &&& *final(game_state) == *old(game_state)
            },
        },
{
    if !pubkey_eq(&game_state.authority, authority) {
        return Err(ErrorCode::UnauthorizedAccess);
    }

    game_state.house_wallet = *new_house_wallet;
    Ok(())
}

} // verus!
