//! Commit-reveal randomness and stake-weighted winner selection.
//!
//! The authority commits to a seed before bets open; at finalize time the
//! reveal is checked against the commitment and folded together with round
//! data into a hash, whose first eight bytes pick a pot position. The bet
//! whose cumulative stake range covers that position wins, which gives each
//! player a win probability exactly proportional to its share of the pot.

use vstd::prelude::*;
use vstd::bytes::lemma_auto_spec_u64_to_from_le_bytes;
use vstd::bytes::spec_u64_from_le_bytes;
use vstd::bytes::spec_u64_to_le_bytes;
use vstd::bytes::u64_from_le_bytes;
use vstd::bytes::u64_to_le_bytes;
use vstd::slice::slice_subrange;

use crate::errors::ErrorCode;
use crate::state::PlayerData;
use crate::state::RoundState;
use crate::state::SeedArray;
use crate::state::sum_amounts;

verus! {

/// Named digest of the platform-supplied SHA-256 primitive: a function of the
/// input bytes alone.
pub uninterp spec fn sha256_of(data: Seq<u8>) -> Seq<u8>;

/// Relies on `anchor_lang::solana_program::hash::hash`: the SHA-256 digest of
/// the input, 32 bytes wide, depending on the input bytes alone.
#[verifier::external_body]
fn sha256_digest(data: &[u8; 32]) -> (r: [u8; 32])
    ensures
        r@ == sha256_of(data@),
{
    anchor_lang::solana_program::hash::hash(data).to_bytes()
}

/// `data` folded position-wise into the front of `acc` by XOR.
pub open spec fn xor_into(acc: Seq<u8>, data: Seq<u8>) -> Seq<u8>
    recommends
        data.len() <= acc.len(),
{
    Seq::new(acc.len(), |i: int| if i < data.len() { acc[i] ^ data[i] } else { acc[i] })
}

/// The zero buffer with the revealed seed folded in.
pub open spec fn entropy_after_seed(seed: Seq<u8>) -> Seq<u8> {
    xor_into(Seq::new(32, |i: int| 0u8), seed)
}

/// ... then the timestamp's little-endian bytes.
pub open spec fn entropy_after_timestamp(seed: Seq<u8>, timestamp: i64) -> Seq<u8> {
    xor_into(entropy_after_seed(seed), spec_u64_to_le_bytes(timestamp as u64))
}

/// ... then the pot's little-endian bytes.
pub open spec fn entropy_after_pot(seed: Seq<u8>, timestamp: i64, total_pot: u64) -> Seq<u8> {
    xor_into(entropy_after_timestamp(seed, timestamp), spec_u64_to_le_bytes(total_pot))
}

/// ... then the player count into position zero.
pub open spec fn entropy_after_count(
    seed: Seq<u8>,
    timestamp: i64,
    total_pot: u64,
    player_count: u8,
) -> Seq<u8> {
    let a = entropy_after_pot(seed, timestamp, total_pot);
    a.update(0, a[0] ^ player_count)
}

/// The fully folded 32-byte buffer: seed, timestamp, pot, player count and
/// round id, in that fixed order.
pub open spec fn combined_entropy(
    seed: Seq<u8>,
    timestamp: i64,
    total_pot: u64,
    player_count: u8,
    round_id: u64,
) -> Seq<u8> {
    xor_into(
        entropy_after_count(seed, timestamp, total_pot, player_count),
        spec_u64_to_le_bytes(round_id),
    )
}

/// The unsigned 64-bit value read little-endian from the first eight bytes of
/// the hashed entropy buffer.
pub open spec fn spec_random_value(
    seed: Seq<u8>,
    timestamp: i64,
    total_pot: u64,
    player_count: u8,
    round_id: u64,
) -> u64 {
    spec_u64_from_le_bytes(
        sha256_of(combined_entropy(seed, timestamp, total_pot, player_count, round_id)).subrange(
            0,
            8,
        ),
    )
}

/// Sum of the stakes of the first `n` bet entries.
pub open spec fn prefix_amounts(players: Seq<PlayerData>, n: int) -> int
    recommends
        0 <= n <= players.len(),
{
    sum_amounts(players.take(n))
}

/// First index at or after `i` whose entry has a positive stake and whose
/// cumulative stake range covers `scaled`; the length if none does.
pub open spec fn winner_at(players: Seq<PlayerData>, scaled: u64, i: int) -> int
    recommends
        0 <= i <= players.len(),
    decreases players.len() - i,
    when 0 <= i <= players.len()
{
    if i >= players.len() {
        players.len() as int
    } else if players[i].amount > 0 && (scaled as int) < prefix_amounts(players, i + 1) {
        i
    } else {
        winner_at(players, scaled, i + 1)
    }
}

/// The winning bet index for the given round data: the revealed entropy is
/// hashed, reduced modulo the pot, and matched against cumulative stakes in
/// insertion order.
pub open spec fn spec_determine_winner(
    seed: Seq<u8>,
    timestamp: i64,
    total_pot: u64,
    player_count: u8,
    round_id: u64,
    players: Seq<PlayerData>,
) -> int
    recommends
        total_pot > 0,
{
    winner_at(
        players,
        (spec_random_value(seed, timestamp, total_pot, player_count, round_id) % total_pot) as u64,
        0,
    )
}

/// Winner selection is a pure function: identical revealed seed, timestamp,
/// pot, player count, round id and bets always yield the identical winner
/// index.
pub proof fn lemma_winner_selection_deterministic(
    seed1: Seq<u8>,
    timestamp1: i64,
    total_pot1: u64,
    player_count1: u8,
    round_id1: u64,
    players1: Seq<PlayerData>,
    seed2: Seq<u8>,
    timestamp2: i64,
    total_pot2: u64,
    player_count2: u8,
    round_id2: u64,
    players2: Seq<PlayerData>,
)
    requires
        seed1 == seed2,
        timestamp1 == timestamp2,
        total_pot1 == total_pot2,
        player_count1 == player_count2,
        round_id1 == round_id2,
        players1 == players2,
    ensures
        spec_determine_winner(seed1, timestamp1, total_pot1, player_count1, round_id1, players1)
            == spec_determine_winner(
            seed2,
            timestamp2,
            total_pot2,
            player_count2,
            round_id2,
            players2,
        ),
{
}

/// Adding the next entry extends a prefix sum by that entry's stake.
pub proof fn lemma_prefix_step(players: Seq<PlayerData>, i: int)
    requires
        0 <= i < players.len(),
    ensures
        prefix_amounts(players, i + 1) == prefix_amounts(players, i) + players[i].amount,
{
    assert(players.take(i + 1).drop_last() =~= players.take(i));
    assert(players.take(i + 1).last() == players[i]);
}

/// A prefix sum never exceeds the sum over all entries.
pub proof fn lemma_prefix_le_total(players: Seq<PlayerData>, n: int)
    requires
        0 <= n <= players.len(),
    ensures
        prefix_amounts(players, n) <= sum_amounts(players),
    decreases players.len() - n,
{
    if n == players.len() {
        assert(players.take(n) =~= players);
    } else {
        lemma_prefix_step(players, n);
        lemma_prefix_le_total(players, n + 1);
    }
}

/// Builds the folded entropy buffer exactly as the specification describes.
#[verifier::loop_isolation(false)]
fn build_combined_entropy(
    seed: &SeedArray,
    current_timestamp: i64,
    total_pot: u64,
    player_count: u8,
    round_id: u64,
) -> (r: [u8; 32])
    ensures
        r@ == combined_entropy(seed@, current_timestamp, total_pot, player_count, round_id),
{
    let mut combined: [u8; 32] = [0u8; 32];

    let ghost a1 = entropy_after_seed(seed@);
    let mut i: usize = 0;
    while i < 32
        invariant
            i <= 32,
            forall|j: int| 0 <= j < i ==> combined@[j] == a1[j],
            forall|j: int| i <= j < 32 ==> combined@[j] == 0u8,
        decreases 32 - i,
    {
        combined[i] = combined[i] ^ seed[i];
        i = i + 1;
    }

    let ghost a2 = entropy_after_timestamp(seed@, current_timestamp);
    let timestamp_bytes = u64_to_le_bytes(#[verifier::truncate] (current_timestamp as u64));
    proof {
        lemma_auto_spec_u64_to_from_le_bytes();
    }
    let mut i: usize = 0;
    while i < 8
        invariant
            i <= 8,
            timestamp_bytes@ == spec_u64_to_le_bytes(current_timestamp as u64),
            timestamp_bytes@.len() == 8,
            forall|j: int| 0 <= j < i ==> combined@[j] == a2[j],
            forall|j: int| i <= j < 32 ==> combined@[j] == a1[j],
        decreases 8 - i,
    {
        combined[i] = combined[i] ^ timestamp_bytes[i];
        i = i + 1;
    }
    proof {
        assert(combined@ =~= a2);
    }

    let ghost a3 = entropy_after_pot(seed@, current_timestamp, total_pot);
    let pot_bytes = u64_to_le_bytes(total_pot);
    let mut i: usize = 0;
    while i < 8
        invariant
            i <= 8,
            pot_bytes@ == spec_u64_to_le_bytes(total_pot),
            pot_bytes@.len() == 8,
            forall|j: int| 0 <= j < i ==> combined@[j] == a3[j],
            forall|j: int| i <= j < 32 ==> combined@[j] == a2[j],
        decreases 8 - i,
    {
        combined[i] = combined[i] ^ pot_bytes[i];
        i = i + 1;
    }
    proof {
        assert(combined@ =~= a3);
    }

    let ghost a4 = entropy_after_count(seed@, current_timestamp, total_pot, player_count);
    combined[0] = combined[0] ^ player_count;
    proof {
        assert(combined@ =~= a4);
    }

    let ghost a5 = combined_entropy(seed@, current_timestamp, total_pot, player_count, round_id);
    let id_bytes = u64_to_le_bytes(round_id);
    let mut i: usize = 0;
    while i < 8
        invariant
            i <= 8,
            id_bytes@ == spec_u64_to_le_bytes(round_id),
            id_bytes@.len() == 8,
            forall|j: int| 0 <= j < i ==> combined@[j] == a5[j],
            forall|j: int| i <= j < 32 ==> combined@[j] == a4[j],
        decreases 8 - i,
    {
        combined[i] = combined[i] ^ id_bytes[i];
        i = i + 1;
    }
    proof {
        assert(combined@ =~= a5);
    }

    combined
}

/// Picks the round's winner from the revealed seed and the round data.
///
/// Succeeds exactly when a seed has been revealed and the pot is non-empty;
/// the returned index is the specification's winner: it addresses a recorded
/// bet, and that bet's stake is positive.
#[verifier::loop_isolation(false)]
pub fn determine_winner(round_state: &RoundState, current_timestamp: i64) -> (r: Result<
    u8,
    ErrorCode,
>)
    requires
        round_state.wf(),
    ensures
        match r {
            Ok(i) => {
                &&& round_state.revealed_seed is Some
                &&& round_state.total_sol_pot > 0
                &&& i as int == spec_determine_winner(
                    round_state.revealed_seed->Some_0@,
                    current_timestamp,
                    round_state.total_sol_pot,
                    round_state.players@.len() as u8,
                    round_state.id,
                    round_state.players@,
                )
                &&& (i as int) < round_state.players@.len()
                &&& round_state.players@[i as int].amount > 0
            },
            Err(e) => {
                ||| (e == ErrorCode::InvalidRevealedSeed && round_state.revealed_seed is None)
                ||| (e == ErrorCode::NoPlayers && round_state.revealed_seed is Some
                    && round_state.total_sol_pot == 0)
            },
        },
{
    let revealed_seed = match round_state.get_revealed_seed() {
        Some(s) => s,
        None => {
            return Err(ErrorCode::InvalidRevealedSeed);
        },
    };

    let player_count = round_state.player_count();
    let combined = build_combined_entropy(
        &revealed_seed,
        current_timestamp,
        round_state.total_sol_pot,
        player_count,
        round_state.id,
    );

    let entropy_hash = sha256_digest(&combined);
    let first_eight = slice_subrange(entropy_hash.as_slice(), 0, 8);
    let random_value = u64_from_le_bytes(first_eight);

    if round_state.total_sol_pot == 0 {
        return Err(ErrorCode::NoPlayers);
    }

    let scaled_random = random_value % round_state.total_sol_pot;
    let ghost players_seq = round_state.players@;
    let ghost the_winner = winner_at(players_seq, scaled_random, 0);

    let mut cumulative_bet_amount: u64 = 0;
    let mut i: usize = 0;
    while i < round_state.players.len()
        invariant
            round_state.wf(),
            i <= players_seq.len(),
            players_seq == round_state.players@,
            scaled_random < round_state.total_sol_pot,
            cumulative_bet_amount == prefix_amounts(players_seq, i as int),
            scaled_random >= cumulative_bet_amount,
            the_winner == winner_at(players_seq, scaled_random, i as int),
        decreases players_seq.len() - i,
    {
        let player_amount = round_state.players[i].amount;
        proof {
            lemma_prefix_step(players_seq, i as int);
            lemma_prefix_le_total(players_seq, i as int + 1);
        }
        if player_amount > 0 {
            cumulative_bet_amount = cumulative_bet_amount + player_amount;
            if scaled_random < cumulative_bet_amount {
                return Ok(i as u8);
            }
        }
        i = i + 1;
    }

    // Defensively checked, but unreachable: the cumulative stake reaches the
    // whole pot, which the scaled random value is strictly below.
    proof {
        assert(players_seq.take(players_seq.len() as int) =~= players_seq);
        assert(false);
    }
    Err(ErrorCode::GameCalculationError)
}

} // verus!
