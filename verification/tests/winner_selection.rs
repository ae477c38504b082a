//! Winner selection: determinism, bounds, dependence on the hashed entropy,
//! and the stake-weighted distribution over many seeds.

use spin_wheel::errors::ErrorCode;
use spin_wheel::state::PlayerData;
use spin_wheel::state::Pubkey;
use spin_wheel::state::RoundState;
use spin_wheel::state::RoundStatus;
use spin_wheel::winner::determine_winner;

fn pk(b: u8) -> Pubkey {
    Pubkey { bytes: [b; 32] }
}

fn round_with(
    id: u64,
    seed: Option<[u8; 32]>,
    total_pot: u64,
    stakes: &[u64],
) -> RoundState {
    let players: Vec<PlayerData> = stakes
        .iter()
        .enumerate()
        .map(|(i, a)| PlayerData { pubkey: pk(10 + i as u8), amount: *a })
        .collect();
    RoundState {
        id,
        start_time: 0,
        end_time: 10,
        seed_commitment: seed.unwrap_or([0u8; 32]),
        revealed_seed: seed,
        total_sol_pot: total_pot,
        players,
        player_cashino_rewards: Vec::new(),
        total_cashino_minted_for_round: 0,
        status: RoundStatus::Active,
        winner_index: None,
        house_sol_fee: 0,
        winner_sol_pubkey: pk(0),
        winner_sol_amount: 0,
        winner_sol_claimed: false,
    }
}

#[test]
fn winner_matches_the_reference_value() {
    // seed [7; 32], timestamp 1300, pot 1_000_000_000, two stakes
    // 300_000_000 / 700_000_000, round id 1: the SHA-256 of the folded
    // entropy selects index 0. Reading the folded buffer itself instead of
    // its digest would select index 1.
    let round = round_with(1, Some([7u8; 32]), 1_000_000_000, &[300_000_000, 700_000_000]);
    assert_eq!(determine_winner(&round, 1300), Ok(0));
}

#[test]
fn winner_is_a_pure_function_of_its_inputs() {
    let round = round_with(3, Some([42u8; 32]), 1_000_000_000, &[500_000_000, 500_000_000]);
    let first = determine_winner(&round, 777).unwrap();
    let second = determine_winner(&round, 777).unwrap();
    assert_eq!(first, second);
    let again = round_with(3, Some([42u8; 32]), 1_000_000_000, &[500_000_000, 500_000_000]);
    assert_eq!(determine_winner(&again, 777).unwrap(), first);
}

#[test]
fn winner_differs_when_an_input_differs() {
    // over enough timestamps, not every selection can coincide
    let round = round_with(3, Some([42u8; 32]), 1_000_000_000, &[500_000_000, 500_000_000]);
    let mut seen0 = false;
    let mut seen1 = false;
    for ts in 0..64i64 {
        match determine_winner(&round, ts).unwrap() {
            0 => seen0 = true,
            _ => seen1 = true,
        }
    }
    assert!(seen0 && seen1);
}

#[test]
fn winner_addresses_a_recorded_positive_bet() {
    for id in 0..32u64 {
        let round = round_with(
            id,
            Some([13u8; 32]),
            1_600_000_000,
            &[100_000_000, 200_000_000, 300_000_000, 1_000_000_000],
        );
        let w = determine_winner(&round, 999).unwrap() as usize;
        assert!(w < round.players.len());
        assert!(round.players[w].amount > 0);
    }
}

#[test]
fn winner_needs_a_revealed_seed() {
    let round = round_with(1, None, 1_000_000_000, &[1_000_000_000]);
    assert_eq!(determine_winner(&round, 10), Err(ErrorCode::InvalidRevealedSeed));
}

#[test]
fn winner_needs_a_nonempty_pot() {
    let round = round_with(1, Some([7u8; 32]), 0, &[]);
    assert_eq!(determine_winner(&round, 10), Err(ErrorCode::NoPlayers));
}

#[test]
fn win_frequency_tracks_stake_share() {
    // player 0 stakes 30% of the pot; over 1000 seeds its win frequency
    // stays near 0.3
    let mut wins0: u32 = 0;
    let trials: u32 = 1000;
    for k in 0..trials {
        let mut seed = [9u8; 32];
        seed[0] = (k & 0xff) as u8;
        seed[1] = ((k >> 8) & 0xff) as u8;
        let round = round_with(
            42,
            Some(seed),
            10_000_000_000,
            &[3_000_000_000, 7_000_000_000],
        );
        if determine_winner(&round, 5000).unwrap() == 0 {
            wins0 += 1;
        }
    }
    assert!(wins0 >= 240, "player 0 won only {} of {} trials", wins0, trials);
    assert!(wins0 <= 360, "player 0 won {} of {} trials", wins0, trials);
}
