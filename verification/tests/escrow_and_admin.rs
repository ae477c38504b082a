//! Escrow deposits and withdrawals, bet validation, and the authority-gated
//! configuration operations.

use spin_wheel::MAX_PLAYERS;
use spin_wheel::WITHDRAWAL_FEE_LAMPORTS;
use spin_wheel::admin::process_initialize_game_settings;
use spin_wheel::admin::process_start_new_round;
use spin_wheel::admin::process_update_game_fee;
use spin_wheel::admin::process_update_game_house_wallet;
use spin_wheel::bets::process_place_sol_bet;
use spin_wheel::errors::ErrorCode;
use spin_wheel::escrow::process_deposit_sol;
use spin_wheel::escrow::process_withdraw_sol_from_platform;
use spin_wheel::state::GameState;
use spin_wheel::state::Pubkey;
use spin_wheel::state::RoundState;
use spin_wheel::state::UserPlatformEscrow;

fn pk(b: u8) -> Pubkey {
    Pubkey { bytes: [b; 32] }
}

fn fresh_escrow() -> UserPlatformEscrow {
    UserPlatformEscrow { user_authority: pk(0), balance: 0, bump: 0 }
}

fn funded_escrow(owner: Pubkey, amount: u64) -> (UserPlatformEscrow, u64) {
    let mut escrow = fresh_escrow();
    let mut wallet: u64 = amount;
    let mut escrow_lamports: u64 = 0;
    process_deposit_sol(&mut escrow, &owner, amount, &mut wallet, &mut escrow_lamports).unwrap();
    (escrow, escrow_lamports)
}

fn open_round() -> (GameState, RoundState) {
    let authority = pk(1);
    let mut game = process_initialize_game_settings(&authority, &pk(2), &pk(3), 300).unwrap();
    let round = process_start_new_round(&mut game, &authority, [7u8; 32], 300, 0, 1000).unwrap();
    (game, round)
}

#[test]
fn deposit_adopts_a_fresh_escrow() {
    let mut escrow = fresh_escrow();
    let mut wallet: u64 = 50_000_000;
    let mut escrow_lamports: u64 = 0;
    process_deposit_sol(&mut escrow, &pk(5), 20_000_000, &mut wallet, &mut escrow_lamports)
        .unwrap();
    assert_eq!(escrow.user_authority, pk(5));
    assert_eq!(escrow.balance, 20_000_000);
    assert_eq!(wallet, 30_000_000);
    assert_eq!(escrow_lamports, 20_000_000);
    // a second deposit accumulates
    process_deposit_sol(&mut escrow, &pk(5), 10_000_000, &mut wallet, &mut escrow_lamports)
        .unwrap();
    assert_eq!(escrow.balance, 30_000_000);
}

#[test]
fn deposit_rejects_zero_and_strangers() {
    let (mut escrow, mut escrow_lamports) = funded_escrow(pk(5), 20_000_000);
    let mut wallet: u64 = 100;
    assert_eq!(
        process_deposit_sol(&mut escrow, &pk(5), 0, &mut wallet, &mut escrow_lamports),
        Err(ErrorCode::InvalidDepositAmount)
    );
    assert_eq!(
        process_deposit_sol(&mut escrow, &pk(6), 10, &mut wallet, &mut escrow_lamports),
        Err(ErrorCode::UnauthorizedAccess)
    );
    assert_eq!(escrow.balance, 20_000_000);
}

#[test]
fn deposit_needs_wallet_funds() {
    let mut escrow = fresh_escrow();
    let mut wallet: u64 = 5;
    let mut escrow_lamports: u64 = 0;
    assert_eq!(
        process_deposit_sol(&mut escrow, &pk(5), 10, &mut wallet, &mut escrow_lamports),
        Err(ErrorCode::InsufficientFunds)
    );
    assert_eq!(wallet, 5);
}

#[test]
fn deposit_checks_balance_overflow() {
    let mut escrow =
        UserPlatformEscrow { user_authority: pk(5), balance: u64::MAX, bump: 0 };
    let mut wallet: u64 = 10;
    let mut escrow_lamports: u64 = u64::MAX;
    assert_eq!(
        process_deposit_sol(&mut escrow, &pk(5), 1, &mut wallet, &mut escrow_lamports),
        Err(ErrorCode::CalculationError)
    );
}

#[test]
fn withdraw_debits_amount_plus_fee() {
    let (mut escrow, mut escrow_lamports) = funded_escrow(pk(5), 100_000_000);
    let mut wallet: u64 = 0;
    let mut house: u64 = 0;
    process_withdraw_sol_from_platform(
        &mut escrow,
        &pk(5),
        50_000_000,
        &mut escrow_lamports,
        0,
        &mut wallet,
        &mut house,
    )
    .unwrap();
    assert_eq!(wallet, 50_000_000);
    assert_eq!(house, WITHDRAWAL_FEE_LAMPORTS);
    assert_eq!(escrow.balance, 100_000_000 - 50_000_000 - WITHDRAWAL_FEE_LAMPORTS);
    assert_eq!(escrow_lamports, escrow.balance);
}

#[test]
fn withdraw_rejects_bad_requests() {
    let (mut escrow, mut escrow_lamports) = funded_escrow(pk(5), 100_000_000);
    let mut wallet: u64 = 0;
    let mut house: u64 = 0;
    assert_eq!(
        process_withdraw_sol_from_platform(
            &mut escrow,
            &pk(6),
            10,
            &mut escrow_lamports,
            0,
            &mut wallet,
            &mut house,
        ),
        Err(ErrorCode::UnauthorizedEscrowAccess)
    );
    assert_eq!(
        process_withdraw_sol_from_platform(
            &mut escrow,
            &pk(5),
            0,
            &mut escrow_lamports,
            0,
            &mut wallet,
            &mut house,
        ),
        Err(ErrorCode::InvalidWithdrawalAmount)
    );
    // the debit is amount + fee, so a balance-sized amount cannot be covered
    assert_eq!(
        process_withdraw_sol_from_platform(
            &mut escrow,
            &pk(5),
            100_000_000,
            &mut escrow_lamports,
            0,
            &mut wallet,
            &mut house,
        ),
        Err(ErrorCode::InsufficientPlatformBalance)
    );
    // an amount + fee that cannot be represented is rejected, not wrapped
    assert_eq!(
        process_withdraw_sol_from_platform(
            &mut escrow,
            &pk(5),
            u64::MAX,
            &mut escrow_lamports,
            0,
            &mut wallet,
            &mut house,
        ),
        Err(ErrorCode::CalculationError)
    );
    assert_eq!(escrow.balance, 100_000_000);
}

#[test]
fn withdraw_keeps_the_escrow_reserve() {
    let (mut escrow, mut escrow_lamports) = funded_escrow(pk(5), 100_000_000);
    let mut wallet: u64 = 0;
    let mut house: u64 = 0;
    // the backing store would drop below the mandated reserve
    let r = process_withdraw_sol_from_platform(
        &mut escrow,
        &pk(5),
        50_000_000,
        &mut escrow_lamports,
        80_000_000,
        &mut wallet,
        &mut house,
    );
    assert_eq!(r, Err(ErrorCode::WithdrawWouldMakeEscrowRentDeficient));
    assert_eq!(escrow.balance, 100_000_000);
    assert_eq!(escrow_lamports, 100_000_000);
}

#[test]
fn bet_amount_band_is_enforced() {
    let (game, mut round) = open_round();
    let _ = game;
    let (mut escrow, mut escrow_lamports) = funded_escrow(pk(5), 20_000_000_000);
    let mut pot: u64 = 0;
    assert_eq!(
        process_place_sol_bet(
            &mut round,
            &mut escrow,
            &pk(5),
            9_999_999,
            1100,
            &mut escrow_lamports,
            &mut pot,
        ),
        Err(ErrorCode::InvalidBetAmount)
    );
    assert_eq!(
        process_place_sol_bet(
            &mut round,
            &mut escrow,
            &pk(5),
            10_000_000_001,
            1100,
            &mut escrow_lamports,
            &mut pot,
        ),
        Err(ErrorCode::InvalidBetAmount)
    );
    assert_eq!(round.total_sol_pot, 0);
}

#[test]
fn bet_requires_escrow_ownership_and_funds() {
    let (_game, mut round) = open_round();
    let (mut escrow, mut escrow_lamports) = funded_escrow(pk(5), 20_000_000);
    let mut pot: u64 = 0;
    assert_eq!(
        process_place_sol_bet(
            &mut round,
            &mut escrow,
            &pk(6),
            10_000_000,
            1100,
            &mut escrow_lamports,
            &mut pot,
        ),
        Err(ErrorCode::UnauthorizedEscrowAccess)
    );
    assert_eq!(
        process_place_sol_bet(
            &mut round,
            &mut escrow,
            &pk(5),
            30_000_000,
            1100,
            &mut escrow_lamports,
            &mut pot,
        ),
        Err(ErrorCode::InsufficientPlatformBalance)
    );
}

#[test]
fn repeat_bets_merge_into_one_entry() {
    let (_game, mut round) = open_round();
    let (mut escrow, mut escrow_lamports) = funded_escrow(pk(5), 100_000_000);
    let mut pot: u64 = 0;
    process_place_sol_bet(
        &mut round,
        &mut escrow,
        &pk(5),
        10_000_000,
        1100,
        &mut escrow_lamports,
        &mut pot,
    )
    .unwrap();
    process_place_sol_bet(
        &mut round,
        &mut escrow,
        &pk(5),
        15_000_000,
        1100,
        &mut escrow_lamports,
        &mut pot,
    )
    .unwrap();
    assert_eq!(round.players.len(), 1);
    assert_eq!(round.players[0].amount, 25_000_000);
    assert_eq!(round.total_sol_pot, 25_000_000);
    assert_eq!(escrow.balance, 75_000_000);
    assert_eq!(pot, 25_000_000);
}

#[test]
fn the_bet_arena_is_capacity_limited() {
    let (_game, mut round) = open_round();
    let mut pot: u64 = 0;
    for i in 0..MAX_PLAYERS {
        let owner = pk(50 + i as u8);
        let (mut escrow, mut escrow_lamports) = funded_escrow(owner, 10_000_000);
        process_place_sol_bet(
            &mut round,
            &mut escrow,
            &owner,
            10_000_000,
            1100,
            &mut escrow_lamports,
            &mut pot,
        )
        .unwrap();
    }
    assert_eq!(round.players.len(), MAX_PLAYERS);
    let owner = pk(99);
    let (mut escrow, mut escrow_lamports) = funded_escrow(owner, 10_000_000);
    let r = process_place_sol_bet(
        &mut round,
        &mut escrow,
        &owner,
        10_000_000,
        1100,
        &mut escrow_lamports,
        &mut pot,
    );
    assert_eq!(r, Err(ErrorCode::MaxPlayersReached));
    assert_eq!(round.players.len(), MAX_PLAYERS);
    assert_eq!(round.total_sol_pot, 100_000_000);
}

#[test]
fn game_initialization_caps_the_fee() {
    assert_eq!(
        process_initialize_game_settings(&pk(1), &pk(2), &pk(3), 501).unwrap_err(),
        ErrorCode::InvalidHouseFeeConfig
    );
    let game = process_initialize_game_settings(&pk(1), &pk(2), &pk(3), 500).unwrap();
    assert_eq!(game.house_fee_basis_points, 500);
    assert_eq!(game.round_counter, 0);
    assert!(game.is_initialized);
    assert_eq!(game.cashino_mint, pk(3));
}

#[test]
fn fee_and_wallet_updates_are_authority_gated() {
    let (mut game, _round) = open_round();
    assert_eq!(
        process_update_game_fee(&mut game, &pk(9), 100),
        Err(ErrorCode::UnauthorizedAccess)
    );
    assert_eq!(
        process_update_game_fee(&mut game, &pk(1), 501),
        Err(ErrorCode::InvalidHouseFeeConfig)
    );
    process_update_game_fee(&mut game, &pk(1), 100).unwrap();
    assert_eq!(game.house_fee_basis_points, 100);

    assert_eq!(
        process_update_game_house_wallet(&mut game, &pk(9), &pk(8)),
        Err(ErrorCode::UnauthorizedAccess)
    );
    process_update_game_house_wallet(&mut game, &pk(1), &pk(8)).unwrap();
    assert_eq!(game.house_wallet, pk(8));
}

#[test]
fn round_opening_validates_counter_and_duration() {
    let authority = pk(1);
    let mut game = process_initialize_game_settings(&authority, &pk(2), &pk(3), 300).unwrap();
    assert_eq!(
        process_start_new_round(&mut game, &authority, [7u8; 32], 300, 5, 1000).unwrap_err(),
        ErrorCode::InvalidRoundIdForSeed
    );
    assert_eq!(
        process_start_new_round(&mut game, &authority, [7u8; 32], 0, 0, 1000).unwrap_err(),
        ErrorCode::InvalidTimeParameters
    );
    assert_eq!(
        process_start_new_round(&mut game, &authority, [7u8; 32], 301, 0, 1000).unwrap_err(),
        ErrorCode::InvalidTimeParameters
    );
    assert_eq!(
        process_start_new_round(&mut game, &pk(9), [7u8; 32], 300, 0, 1000).unwrap_err(),
        ErrorCode::UnauthorizedAccess
    );

    let round = process_start_new_round(&mut game, &authority, [7u8; 32], 300, 0, 1000).unwrap();
    assert_eq!(round.id, 1);
    assert_eq!(game.round_counter, 1);
    assert_eq!(round.start_time, 1000);
    assert_eq!(round.end_time, 1300);
    assert_eq!(round.seed_commitment, [7u8; 32]);
    assert_eq!(round.players.len(), 0);

    // the next round must quote the advanced counter
    assert_eq!(
        process_start_new_round(&mut game, &authority, [7u8; 32], 300, 0, 2000).unwrap_err(),
        ErrorCode::InvalidRoundIdForSeed
    );
    let round2 = process_start_new_round(&mut game, &authority, [7u8; 32], 300, 1, 2000).unwrap();
    assert_eq!(round2.id, 2);
}

#[test]
fn an_uninitialized_game_opens_no_round() {
    let mut game = GameState::default();
    let caller = Pubkey { bytes: [0u8; 32] };
    assert_eq!(
        process_start_new_round(&mut game, &caller, [7u8; 32], 300, 0, 1000).unwrap_err(),
        ErrorCode::UnauthorizedAccess
    );
}
