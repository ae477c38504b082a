//! Data model: identities, the game configuration, per-user escrow, and the
//! round state machine with its well-formedness invariant.

use vstd::prelude::*;

use crate::MAX_PLAYERS;
use crate::MAX_GAME_HOUSE_FEE_BASIS_POINTS;
use crate::INITIAL_GAME_HOUSE_FEE_BASIS_POINTS;
use crate::SEED_BYTES_LENGTH;

verus! {

/// A seed commitment or a revealed seed: a fixed-width opaque byte array.
pub type SeedArray = [u8; SEED_BYTES_LENGTH];

/// An account identity: 32 raw key bytes.
#[derive(Clone, Copy, Debug)]
pub struct Pubkey {
    pub bytes: [u8; 32],
}

impl PartialEq for Pubkey {
    fn eq(&self, other: &Pubkey) -> (r: bool) {
        bytes32_eq(&self.bytes, &other.bytes)
    }
}

impl vstd::std_specs::cmp::PartialEqSpecImpl for Pubkey {
    open spec fn obeys_eq_spec() -> bool {
        true
    }

    open spec fn eq_spec(&self, other: &Pubkey) -> bool {
        self.bytes@ == other.bytes@
    }
}

impl Pubkey {
    /// Whether this is the all-zero key, used as the "unset" sentinel.
    pub open spec fn is_zeroed(self) -> bool {
        forall|i: int| 0 <= i < 32 ==> self.bytes@[i] == 0
    }

    /// Builds the all-zero key.
    pub fn zeroed() -> (r: Pubkey)
        ensures
            r.is_zeroed(),
    {
        Pubkey { bytes: [0u8; 32] }
    }
}

/// Equality against an all-zero key is exactly the `is_zeroed` test.
pub proof fn lemma_eq_zeroed(a: Pubkey, z: Pubkey)
    requires
        z.is_zeroed(),
    ensures
        (a == z) <==> a.is_zeroed(),
{
    if a.is_zeroed() {
        assert(a.bytes =~= z.bytes);
        assert(a == (Pubkey { bytes: z.bytes }));
    }
}

/// Compares two fixed-width byte arrays for equality.
pub fn bytes32_eq(a: &[u8; 32], b: &[u8; 32]) -> (r: bool)
    ensures
        r <==> a@ == b@,
{
    let mut i: usize = 0;
    while i < 32
        invariant
            i <= 32,
            forall|j: int| 0 <= j < i ==> a@[j] == b@[j],
        decreases 32 - i,
    {
        if a[i] != b[i] {
            assert(a@ != b@);
            return false;
        }
        i = i + 1;
    }
    proof {
        assert(a@ =~= b@);
    }
    true
}

/// Compares two identities for equality.
pub fn pubkey_eq(a: &Pubkey, b: &Pubkey) -> (r: bool)
    ensures
        r <==> *a == *b,
{
    let r = bytes32_eq(&a.bytes, &b.bytes);
    proof {
        if a.bytes@ == b.bytes@ {
            assert(a.bytes =~= b.bytes);
            assert(*a == (Pubkey { bytes: a.bytes }));
        }
    }
    r
}

/// One bet entry: a player's identity and its accumulated stake.
#[derive(Clone, Copy, Debug, PartialEq)]
pub struct PlayerData {
    pub pubkey: Pubkey,
    pub amount: u64,
}

/// One reward entitlement entry, parallel to a bet entry.
#[derive(Clone, Copy, Debug, PartialEq)]
pub struct PlayerCashinoRewards {
    pub player: Pubkey,
    pub sol_bet_amount: u64,
    pub cashino_reward_amount: u64,
    pub claimed: bool,
}

/// Per-user prepaid balance that funds bets without a wallet transfer per bet.
#[derive(Clone, Copy, Debug, PartialEq)]
pub struct UserPlatformEscrow {
    pub user_authority: Pubkey,
    pub balance: u64,
    pub bump: u8,
}

/// Process-wide configuration: authority, house wallet, fee rate and the
/// monotonic round counter.
#[derive(Clone, Copy, Debug, PartialEq)]
pub struct GameState {
    pub authority: Pubkey,
    pub house_wallet: Pubkey,
    pub house_fee_basis_points: u16,
    pub round_counter: u64,
    pub is_initialized: bool,
    pub cashino_mint: Pubkey,
}

impl GameState {
    /// The configuration's own invariant: the fee rate never exceeds its cap.
    pub open spec fn wf(self) -> bool {
        self.house_fee_basis_points <= MAX_GAME_HOUSE_FEE_BASIS_POINTS
    }
}

impl Default for GameState {
    /// An uninitialized configuration with the starting fee rate.
    fn default() -> (r: GameState)
        ensures
            r.authority.is_zeroed(),
            r.house_wallet.is_zeroed(),
            r.house_fee_basis_points == INITIAL_GAME_HOUSE_FEE_BASIS_POINTS,
            r.round_counter == 0,
            !r.is_initialized,
            r.cashino_mint.is_zeroed(),
            r.wf(),
    {
        GameState {
            authority: Pubkey::zeroed(),
            house_wallet: Pubkey::zeroed(),
            house_fee_basis_points: INITIAL_GAME_HOUSE_FEE_BASIS_POINTS,
            round_counter: 0,
            is_initialized: false,
            cashino_mint: Pubkey::zeroed(),
        }
    }
}

/// Marker for the round's pot: the staked value itself lives in the pot's
/// backing lamport balance, which the operations take as a plain number.
#[derive(Clone, Copy, Debug, PartialEq)]
pub struct GamePotSol {}

/// Per-round reward pot record, created once during settlement.
#[derive(Clone, Copy, Debug, PartialEq)]
pub struct RoundCashinoRewardsPot {
    pub round_id: u64,
    pub total_minted_for_round: u64,
}

/// Round lifecycle stages, in forced forward order.
#[derive(Clone, Copy, Debug, PartialEq, Eq, Structural)]
pub enum RoundStatus {
    Active,
    AwaitingSolClaim,
    SolClaimed,
    RewardPotAccountsCreated,
    TokensMintedForRewards,
    RewardsProcessed,
}

/// Position of a stage in the forward order.
pub open spec fn status_index(s: RoundStatus) -> int {
    match s {
        RoundStatus::Active => 0,
        RoundStatus::AwaitingSolClaim => 1,
        RoundStatus::SolClaimed => 2,
        RoundStatus::RewardPotAccountsCreated => 3,
        RoundStatus::TokensMintedForRewards => 4,
        RoundStatus::RewardsProcessed => 5,
    }
}

/// Sum of the stake amounts of a sequence of bet entries.
pub open spec fn sum_amounts(players: Seq<PlayerData>) -> int
    decreases players.len(),
{
    if players.len() == 0 {
        0
    } else {
        sum_amounts(players.drop_last()) + players.last().amount
    }
}

/// Replacing one entry changes the stake sum by the difference of the two
/// entries' stakes.
pub proof fn lemma_sum_amounts_update(s: Seq<PlayerData>, i: int, e: PlayerData)
    requires
        0 <= i < s.len(),
    ensures
        sum_amounts(s.update(i, e)) == sum_amounts(s) - s[i].amount + e.amount,
    decreases s.len(),
{
    if i == s.len() - 1 {
        assert(s.update(i, e).drop_last() =~= s.drop_last());
        assert(s.update(i, e).last() == e);
    } else {
        assert(s.update(i, e).drop_last() =~= s.drop_last().update(i, e));
        assert(s.update(i, e).last() == s.last());
        lemma_sum_amounts_update(s.drop_last(), i, e);
    }
}

/// Appending an entry adds its stake to the sum.
pub proof fn lemma_sum_amounts_push(s: Seq<PlayerData>, e: PlayerData)
    ensures
        sum_amounts(s.push(e)) == sum_amounts(s) + e.amount,
{
    assert(s.push(e).drop_last() =~= s);
    assert(s.push(e).last() == e);
}

/// Sum of the reward amounts of a sequence of entitlement entries.
pub open spec fn sum_rewards(rewards: Seq<PlayerCashinoRewards>) -> int
    decreases rewards.len(),
{
    if rewards.len() == 0 {
        0
    } else {
        sum_rewards(rewards.drop_last()) + rewards.last().cashino_reward_amount
    }
}

/// A stake sum is never negative.
pub proof fn lemma_sum_amounts_nonneg(s: Seq<PlayerData>)
    ensures
        sum_amounts(s) >= 0,
    decreases s.len(),
{
    if s.len() > 0 {
        lemma_sum_amounts_nonneg(s.drop_last());
    }
}

/// No single stake exceeds the sum of all stakes.
pub proof fn lemma_amount_le_sum(s: Seq<PlayerData>, i: int)
    requires
        0 <= i < s.len(),
    ensures
        s[i].amount <= sum_amounts(s),
    decreases s.len(),
{
    if i == s.len() - 1 {
        lemma_sum_amounts_nonneg(s.drop_last());
    } else {
        lemma_amount_le_sum(s.drop_last(), i);
    }
}

/// Replacing one entitlement entry changes the reward sum by the difference
/// of the two entries' rewards.
pub proof fn lemma_sum_rewards_update(s: Seq<PlayerCashinoRewards>, i: int, e: PlayerCashinoRewards)
    requires
        0 <= i < s.len(),
    ensures
        sum_rewards(s.update(i, e)) == sum_rewards(s) - s[i].cashino_reward_amount
            + e.cashino_reward_amount,
    decreases s.len(),
{
    if i == s.len() - 1 {
        assert(s.update(i, e).drop_last() =~= s.drop_last());
        assert(s.update(i, e).last() == e);
    } else {
        assert(s.update(i, e).drop_last() =~= s.drop_last().update(i, e));
        assert(s.update(i, e).last() == s.last());
        lemma_sum_rewards_update(s.drop_last(), i, e);
    }
}

/// Appending an entitlement entry adds its reward to the sum.
pub proof fn lemma_sum_rewards_push(s: Seq<PlayerCashinoRewards>, e: PlayerCashinoRewards)
    ensures
        sum_rewards(s.push(e)) == sum_rewards(s) + e.cashino_reward_amount,
{
    assert(s.push(e).drop_last() =~= s);
    assert(s.push(e).last() == e);
}

/// The central state machine: one complete betting cycle from open to settled.
#[derive(Debug)]
pub struct RoundState {
    pub id: u64,
    pub start_time: i64,
    pub end_time: i64,
    pub seed_commitment: SeedArray,
    pub revealed_seed: Option<SeedArray>,
    pub total_sol_pot: u64,
    pub players: Vec<PlayerData>,
    pub player_cashino_rewards: Vec<PlayerCashinoRewards>,
    pub total_cashino_minted_for_round: u64,
    pub status: RoundStatus,
    pub winner_index: Option<u8>,
    pub house_sol_fee: u64,
    pub winner_sol_pubkey: Pubkey,
    pub winner_sol_amount: u64,
    pub winner_sol_claimed: bool,
}

impl RoundState {
    /// Number of recorded bet entries.
    pub open spec fn spec_player_count(self) -> int {
        self.players@.len() as int
    }

    /// Well-formedness, established at round creation and preserved by every
    /// operation:
    /// - the bet arena respects its capacity, entries have positive stakes and
    ///   distinct identities, and their sum is exactly the pot;
    /// - once a winner is determined, the house fee and the winner amount
    ///   split the pot exactly and the winner entry is a recorded bet;
    /// - once the pot has been claimed the claim flag is set;
    /// - once entitlements are computed they parallel the bets and their sum
    ///   never exceeds the minted reward amount.
    pub open spec fn wf(self) -> bool {
        &&& self.players@.len() <= MAX_PLAYERS
        &&& self.total_sol_pot == sum_amounts(self.players@)
        &&& forall|i: int|
            0 <= i < self.players@.len() ==> (#[trigger] self.players@[i]).amount > 0
        &&& forall|i: int, j: int|
            0 <= i < j < self.players@.len() ==> self.players@[i].pubkey
                != self.players@[j].pubkey
        &&& self.end_time > self.start_time
        &&& if status_index(self.status) >= 1 {
            &&& self.revealed_seed is Some
            &&& self.winner_index is Some
            &&& self.players@.len() > 0
            &&& (self.winner_index->Some_0 as int) < self.players@.len()
            &&& self.winner_sol_pubkey == self.players@[self.winner_index->Some_0 as int].pubkey
            &&& self.house_sol_fee + self.winner_sol_amount == self.total_sol_pot
        } else {
            &&& self.winner_index is None
            &&& !self.winner_sol_claimed
            &&& self.house_sol_fee == 0
            &&& self.winner_sol_amount == 0
        }
        &&& status_index(self.status) >= 2 ==> self.winner_sol_claimed
        &&& if status_index(self.status) >= 5 {
            &&& self.player_cashino_rewards@.len() == self.players@.len()
            &&& forall|i: int|
                0 <= i < self.players@.len() ==> {
                    &&& (#[trigger] self.player_cashino_rewards@[i]).player
                        == self.players@[i].pubkey
                    &&& self.player_cashino_rewards@[i].sol_bet_amount
                        == self.players@[i].amount
                }
            &&& sum_rewards(self.player_cashino_rewards@)
                <= self.total_cashino_minted_for_round
        } else {
            self.player_cashino_rewards@.len() == 0
        }
    }

    /// The recorded stakes sum exactly to the pot, at all times.
    pub proof fn lemma_pot_matches_bets(self)
        requires
            self.wf(),
        ensures
            self.total_sol_pot == sum_amounts(self.players@),
    {
    }

    /// After settlement the pot splits exactly into house fee and winner
    /// amount: no remainder is lost.
    pub proof fn lemma_settled_accounting(self)
        requires
            self.wf(),
            status_index(self.status) >= 1,
        ensures
            self.house_sol_fee + self.winner_sol_amount == self.total_sol_pot,
    {
    }

    /// Once entitlements are computed, their sum never exceeds the minted
    /// reward amount: rounding down only ever loses the remainder.
    pub proof fn lemma_entitlements_bounded(self)
        requires
            self.wf(),
            status_index(self.status) >= 5,
        ensures
            sum_rewards(self.player_cashino_rewards@) <= self.total_cashino_minted_for_round,
    {
    }

    /// Resets every field to a freshly opened round over the given window and
    /// commitment.
    pub fn initialize_new(
        &mut self,
        id: u64,
        start_time: i64,
        end_time: i64,
        seed_commitment: SeedArray,
    )
        requires
            end_time > start_time,
        ensures
            final(self).id == id,
            final(self).start_time == start_time,
            final(self).end_time == end_time,
            final(self).seed_commitment == seed_commitment,
            final(self).revealed_seed is None,
            final(self).total_sol_pot == 0,
            final(self).players@.len() == 0,
            final(self).player_cashino_rewards@.len() == 0,
            final(self).total_cashino_minted_for_round == 0,
            final(self).status == RoundStatus::Active,
            final(self).winner_index is None,
            final(self).house_sol_fee == 0,
            final(self).winner_sol_pubkey.is_zeroed(),
            final(self).winner_sol_amount == 0,
            !final(self).winner_sol_claimed,
            final(self).wf(),
    {
        self.id = id;
        self.start_time = start_time;
        self.end_time = end_time;
        self.seed_commitment = seed_commitment;
        self.revealed_seed = None;
        self.total_sol_pot = 0;
        self.players = Vec::new();
        self.player_cashino_rewards = Vec::new();
        self.total_cashino_minted_for_round = 0;
        self.status = RoundStatus::Active;
        self.winner_index = None;
        self.house_sol_fee = 0;
        self.winner_sol_pubkey = Pubkey::zeroed();
        self.winner_sol_amount = 0;
        self.winner_sol_claimed = false;
    }

    /// Builds a freshly opened round over the given window and commitment.
    pub fn new_round(
        id: u64,
        start_time: i64,
        end_time: i64,
        seed_commitment: SeedArray,
    ) -> (r: RoundState)
        requires
            end_time > start_time,
        ensures
            r.id == id,
            r.start_time == start_time,
            r.end_time == end_time,
            r.seed_commitment == seed_commitment,
            r.revealed_seed is None,
            r.total_sol_pot == 0,
            r.players@.len() == 0,
            r.player_cashino_rewards@.len() == 0,
            r.total_cashino_minted_for_round == 0,
            r.status == RoundStatus::Active,
            r.winner_index is None,
            r.house_sol_fee == 0,
            r.winner_sol_amount == 0,
            !r.winner_sol_claimed,
            r.wf(),
    {
        RoundState {
            id,
            start_time,
            end_time,
            seed_commitment,
            revealed_seed: None,
            total_sol_pot: 0,
            players: Vec::new(),
            player_cashino_rewards: Vec::new(),
            total_cashino_minted_for_round: 0,
            status: RoundStatus::Active,
            winner_index: None,
            house_sol_fee: 0,
            winner_sol_pubkey: Pubkey::zeroed(),
            winner_sol_amount: 0,
            winner_sol_claimed: false,
        }
    }

    /// Number of recorded bet entries, at most the arena capacity.
    pub fn player_count(&self) -> (r: u8)
        requires
            self.players@.len() <= MAX_PLAYERS,
        ensures
            r as int == self.spec_player_count(),
    {
        self.players.len() as u8
    }

    /// The revealed seed, if the reveal has happened.
    pub fn get_revealed_seed(&self) -> (r: Option<SeedArray>)
        ensures
            r == self.revealed_seed,
    {
        self.revealed_seed
    }

    /// Stores (or clears) the revealed seed.
    pub fn set_revealed_seed(&mut self, seed: Option<SeedArray>)
        ensures
            *final(self) == (RoundState { revealed_seed: seed, ..*old(self) }),
    {
        self.revealed_seed = seed;
    }

    /// The winning bet index, once a winner has been determined.
    pub fn get_winner_index(&self) -> (r: Option<u8>)
        ensures
            r == self.winner_index,
    {
        self.winner_index
    }

    /// Stores (or clears) the winning bet index.
    pub fn set_winner_index(&mut self, index: Option<u8>)
        ensures
            *final(self) == (RoundState { winner_index: index, ..*old(self) }),
    {
        self.winner_index = index;
    }

    /// The round's current lifecycle stage.
    pub fn get_status(&self) -> (r: RoundStatus)
        ensures
            r == self.status,
    {
        self.status
    }

    /// Overwrites the round's lifecycle stage.
    pub fn set_status(&mut self, new_status: RoundStatus)
        ensures
            *final(self) == (RoundState { status: new_status, ..*old(self) }),
    {
        self.status = new_status;
    }
}

} // verus!
