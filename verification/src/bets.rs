//! Bet placement: escrow-funded stakes recorded in the round's bet arena.
//!
//! A bet debits the player's escrow, credits the round's pot store, and
//! either merges into the player's existing entry or appends a new one. The
//! arena mutation and the value transfer commit together or not at all.

use vstd::prelude::*;

use crate::MAX_BET_AMOUNT;
use crate::MAX_PLAYERS;
use crate::MIN_BET_AMOUNT;
use crate::errors::ErrorCode;
use crate::state::PlayerData;
use crate::state::Pubkey;
use crate::state::RoundState;
use crate::state::RoundStatus;
use crate::state::UserPlatformEscrow;
use crate::state::lemma_sum_amounts_push;
use crate::state::lemma_sum_amounts_update;
use crate::state::pubkey_eq;

verus! {

/// First index at or after `i` whose bet entry belongs to `player`; the
/// length if none does.
pub open spec fn find_player(players: Seq<PlayerData>, player: Pubkey, i: int) -> int
    recommends
        0 <= i <= players.len(),
    decreases players.len() - i,
    when 0 <= i <= players.len()
{
    if i >= players.len() {
        players.len() as int
    } else if players[i].pubkey == player {
        i
    } else {
        find_player(players, player, i + 1)
    }
}

/// Error a bet returns, if any: the caller must own the escrow and have the
/// stake on balance, the round must be active with its window open, the
/// amount must lie in the allowed band, a new entry needs free capacity, and
/// every addition is checked arithmetic.
pub open spec fn place_bet_error(
    round: RoundState,
    escrow: UserPlatformEscrow,
    player: Pubkey,
    amount: u64,
    now: i64,
    pot_lamports: u64,
) -> Option<ErrorCode> {
    let idx = find_player(round.players@, player, 0);
    if escrow.user_authority != player {
        Some(ErrorCode::UnauthorizedEscrowAccess)
    } else if escrow.balance < amount {
        Some(ErrorCode::InsufficientPlatformBalance)
    } else if round.status != RoundStatus::Active {
        Some(ErrorCode::RoundNotActive)
    } else if now >= round.end_time {
        Some(ErrorCode::BetWindowClosed)
    } else if amount < MIN_BET_AMOUNT || amount > MAX_BET_AMOUNT {
        Some(ErrorCode::InvalidBetAmount)
    } else if idx < round.players@.len() && round.players@[idx].amount + amount > u64::MAX {
        Some(ErrorCode::CalculationError)
    } else if idx == round.players@.len() && round.players@.len() >= MAX_PLAYERS {
        Some(ErrorCode::MaxPlayersReached)
    } else if round.total_sol_pot + amount > u64::MAX || pot_lamports + amount > u64::MAX {
        Some(ErrorCode::CalculationError)
    } else {
        None
    }
}

/// The bet arena after a successful bet: the stake merged into the player's
/// entry, or a new entry appended.
pub open spec fn players_after_bet(
    players: Seq<PlayerData>,
    player: Pubkey,
    amount: u64,
) -> Seq<PlayerData> {
    let idx = find_player(players, player, 0);
    if idx < players.len() {
        players.update(
            idx,
            PlayerData { pubkey: players[idx].pubkey, amount: (players[idx].amount + amount) as u64 },
        )
    } else {
        players.push(PlayerData { pubkey: player, amount })
    }
}

/// Places (or tops up) the caller's bet on an active round: debits the stake
/// from the caller's escrow and its backing store, credits the round's pot
/// store, records the stake in the bet arena and raises the pot total by the
/// same amount.
#[verifier::loop_isolation(false)]
pub fn process_place_sol_bet(
    round_state: &mut RoundState,
    user_platform_escrow: &mut UserPlatformEscrow,
    player: &Pubkey,
    amount: u64,
    now: i64,
    escrow_lamports: &mut u64,
    pot_lamports: &mut u64,
) -> (r: Result<(), ErrorCode>)
    requires
        old(round_state).wf(),
        old(user_platform_escrow).balance <= *old(escrow_lamports),
    ensures
        final(round_state).wf(),
        match r {
            Ok(()) => {
                &&& place_bet_error(
                    *old(round_state),
                    *old(user_platform_escrow),
                    *player,
                    amount,
                    now,
                    *old(pot_lamports),
                ) is None
                &&& final(round_state).players@ == players_after_bet(
                    old(round_state).players@,
                    *player,
                    amount,
                )
                &&& final(round_state).total_sol_pot == old(round_state).total_sol_pot + amount
                &&& *final(round_state) == (RoundState {
                    players: final(round_state).players,
                    total_sol_pot: final(round_state).total_sol_pot,
                    ..*old(round_state)
                })
                &&& *final(user_platform_escrow) == (UserPlatformEscrow {
                    balance: (old(user_platform_escrow).balance - amount) as u64,
                    ..*old(user_platform_escrow)
                })
                &&& *final(escrow_lamports) == *old(escrow_lamports) - amount
                &&& *final(pot_lamports) == *old(pot_lamports) + amount
                &&& final(user_platform_escrow).balance <= *final(escrow_lamports)
            },
            Err(e) => {
                &&& Some(e) == place_bet_error(
                    *old(round_state),
                    *old(user_platform_escrow),
                    *player,
                    amount,
                    now,
                    *old(pot_lamports),
                )
                &&& *final(round_state) == *old(round_state)
                &&& *final(user_platform_escrow) == *old(user_platform_escrow)
                &&& *final(escrow_lamports) == *old(escrow_lamports)
                &&& *final(pot_lamports) == *old(pot_lamports)
            },
        },
{
    if !pubkey_eq(&user_platform_escrow.user_authority, player) {
        return Err(ErrorCode::UnauthorizedEscrowAccess);
    }

    if user_platform_escrow.balance < amount {
        return Err(ErrorCode::InsufficientPlatformBalance);
    }

    if !matches!(round_state.get_status(), RoundStatus::Active) {
        return Err(ErrorCode::RoundNotActive);
    }

    if now >= round_state.end_time {
        return Err(ErrorCode::BetWindowClosed);
    }

    if amount < MIN_BET_AMOUNT || amount > MAX_BET_AMOUNT {
        return Err(ErrorCode::InvalidBetAmount);
    }

    let ghost players_seq = round_state.players@;
    let ghost the_index = find_player(players_seq, *player, 0);

    let mut player_index: usize = 0;
    let mut player_found: bool = false;
    let mut i: usize = 0;
    while i < round_state.players.len()
        invariant
            i <= players_seq.len(),
            player_found ==> (player_index as int) < i as int && players_seq[player_index as int].pubkey
                == *player && the_index == player_index as int,
            !player_found ==> the_index == find_player(players_seq, *player, i as int),
        decreases players_seq.len() - i,
    {
        if !player_found && pubkey_eq(&round_state.players[i].pubkey, player) {
            player_index = i;
            player_found = true;
        }
        i = i + 1;
    }
    proof {
        if !player_found {
            assert(the_index == players_seq.len() as int);
        }
    }

    // Work out every new value before committing anything, so that a failing
    // check leaves all state untouched.
    let merged_amount: u64 = if player_found {
        match round_state.players[player_index].amount.checked_add(amount) {
            Some(v) => v,
            None => {
                return Err(ErrorCode::CalculationError);
            },
        }
    } else {
        if round_state.players.len() >= MAX_PLAYERS {
            return Err(ErrorCode::MaxPlayersReached);
        }
        amount
    };

    let new_pot = match round_state.total_sol_pot.checked_add(amount) {
        Some(v) => v,
        None => {
            return Err(ErrorCode::CalculationError);
        },
    };
    let new_pot_lamports = match pot_lamports.checked_add(amount) {
        Some(v) => v,
        None => {
            return Err(ErrorCode::CalculationError);
        },
    };

    if player_found {
        let merged = PlayerData {
            pubkey: round_state.players[player_index].pubkey,
            amount: merged_amount,
        };
        proof {
            lemma_sum_amounts_update(players_seq, player_index as int, merged);
        }
        round_state.players[player_index] = merged;
    } else {
        let entry = PlayerData { pubkey: *player, amount };
        proof {
            lemma_find_player_not_found(players_seq, *player, 0);
            lemma_sum_amounts_push(players_seq, entry);
        }
        round_state.players.push(entry);
    }

    round_state.total_sol_pot = new_pot;
    *escrow_lamports = *escrow_lamports - amount;
    *pot_lamports = new_pot_lamports;
    user_platform_escrow.balance = user_platform_escrow.balance - amount;
    Ok(())
}

/// A player the scan does not find has no entry at or after the scan start.
pub proof fn lemma_find_player_not_found(players: Seq<PlayerData>, player: Pubkey, i: int)
    requires
        0 <= i <= players.len(),
        find_player(players, player, i) == players.len(),
    ensures
        forall|j: int| i <= j < players.len() ==> players[j].pubkey != player,
    decreases players.len() - i,
{
    if i < players.len() {
        lemma_find_player_not_found(players, player, i + 1);
    }
}

} // verus!
