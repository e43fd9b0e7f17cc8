//! The per-match state machine: roster, commitments, reveals, seed and payout.

use vstd::array::spec_array_update;
use vstd::prelude::*;
use crate::bytes::{bytes_eq, is_zero, is_zero_bytes, xor_bytes, xor_spec, zero_bytes};
use crate::commitment::{digest_matches, keccak256, keccak_of};
use crate::registry::{swap_remove_spec, PlatformConfig};
use crate::{ENTRY_FEE, NUM_PLAYERS, REVEAL_TIMEOUT, WINNER_BPS};

verus! {

/// Lifecycle of a match. `Settled` and `Voided` are terminal.
#[derive(Clone, Copy, PartialEq, Eq, Debug, Structural)]
pub enum GameStatus {
    Pending,
    Open,
    Depositing,
    Revealing,
    Started,
    Settled,
    Voided,
}

impl Default for GameStatus {
    fn default() -> (r: Self)
        ensures
            r == GameStatus::Pending,
    {
        GameStatus::Pending
    }
}

/// Every way a call can be rejected. A rejected call changes nothing.
#[derive(Clone, Copy, PartialEq, Eq, Debug, Structural)]
pub enum SettlementError {
    NotGM,
    NotOwner,
    InvalidGameStatus,
    WrongEntryFee,
    EmptyCommitHash,
    AlreadyDeposited,
    NoEmptySlot,
    NotAPlayer,
    NoCommit,
    AlreadyRevealed,
    HashMismatch,
    NotWinner,
    AlreadyPaid,
    CannotVoid,
    CannotCancel,
    OpenGamesFull,
    WinnerNotPlayer,
    CannotEmergencyVoid,
}

/// One match. Identities are 32-byte public keys; the all-zero key marks an
/// unfilled slot, and an all-zero commitment or reveal marks its absence.
#[derive(Clone, Copy, Debug)]
pub struct GameState {
    pub game_id: u64,
    pub status: GameStatus,
    pub players: [[u8; 32]; 4],
    pub commit_hashes: [[u8; 32]; 4],
    pub revealed_secrets: [[u8; 32]; 4],
    pub deposit_count: u8,
    pub reveal_count: u8,
    pub dice_seed: [u8; 32],
    pub winner: [u8; 32],
    pub game_log_hash: [u8; 32],
    pub reveal_deadline: i64,
    pub created_at: i64,
    pub started_at: i64,
    pub winner_paid: bool,
}

/// 1 if the value is non-zero, else 0.
pub open spec fn nonzero_as_int(b: [u8; 32]) -> int {
    if is_zero(b) { 0 } else { 1 }
}

/// Number of non-zero entries among four 32-byte values.
pub open spec fn nonzero_count(a: [[u8; 32]; 4]) -> int {
    nonzero_as_int(a[0]) + nonzero_as_int(a[1]) + nonzero_as_int(a[2]) + nonzero_as_int(a[3])
}

/// The first slot holding `k`, or 4 if none does.
pub open spec fn first_slot(p: [[u8; 32]; 4], k: [u8; 32]) -> int {
    if p[0] == k { 0 }
    else if p[1] == k { 1 }
    else if p[2] == k { 2 }
    else if p[3] == k { 3 }
    else { 4 }
}

/// Seed derived from four revealed values: their byte-wise exclusive or.
pub open spec fn seed_of(r: [[u8; 32]; 4]) -> Seq<u8> {
    xor_spec(xor_spec(xor_spec(r[0]@, r[1]@), r[2]@), r[3]@)
}

/// Amount paid to the winner out of the full pot.
pub open spec fn winner_share_spec() -> int {
    (ENTRY_FEE as int) * 4 * (WINNER_BPS as int) / 10_000
}

/// Amount paid to the fee recipient: the rest of the pot.
pub open spec fn platform_share_spec() -> int {
    (ENTRY_FEE as int) * 4 - winner_share_spec()
}

/// Position of a status in the lifecycle; transitions only move forward.
pub open spec fn status_rank(s: GameStatus) -> int {
    match s {
        GameStatus::Pending => 0,
        GameStatus::Open => 1,
        GameStatus::Depositing => 2,
        GameStatus::Revealing => 3,
        GameStatus::Started => 4,
        GameStatus::Settled => 5,
        GameStatus::Voided => 5,
    }
}

/// Whether a match moved from status `a` to status `b` without going back.
pub open spec fn moves_forward(a: GameStatus, b: GameStatus) -> bool {
    a == b || (status_rank(a) < status_rank(b) && !(a is Settled) && !(a is Voided))
}

/// Funds released by a successful withdrawal.
#[derive(Clone, Copy, Debug)]
pub struct Payout {
    pub winner: [u8; 32],
    pub winner_share: u64,
    pub fee_recipient: [u8; 32],
    pub platform_share: u64,
}

impl GameState {
    /// Bounds that every reachable match satisfies.
    pub open spec fn wf(&self) -> bool {
        &&& self.deposit_count <= 4
        &&& self.reveal_count <= 4
        &&& (self.status is Open || self.status is Depositing) ==> self.deposit_count < 4 && self.reveal_count == 0
        &&& self.status is Revealing ==> self.reveal_count < 4
    }

    /// `deposit_count` equals the number of non-zero commitments, and an
    /// unclaimed slot holds no commitment.
    pub open spec fn deposits_tracked(&self) -> bool {
        &&& self.deposit_count as int == nonzero_count(self.commit_hashes)
        &&& forall|i: int| 0 <= i < 4 && is_zero(#[trigger] self.players[i]) ==> is_zero(self.commit_hashes[i])
    }

    /// `reveal_count` equals the number of non-zero reveals.
    pub open spec fn reveals_tracked(&self) -> bool {
        self.reveal_count as int == nonzero_count(self.revealed_secrets)
    }

    /// Whether `k` occupies a roster slot.
    pub open spec fn is_player_spec(&self, k: [u8; 32]) -> bool {
        exists|i: int| 0 <= i < 4 && #[trigger] self.players[i] == k
    }

    /// Whether `k` occupies a roster slot with a non-zero commitment.
    pub open spec fn has_deposit_spec(&self, k: [u8; 32]) -> bool {
        exists|i: int| 0 <= i < 4 && #[trigger] self.players[i] == k && !is_zero(self.commit_hashes[i])
    }

    /// A fresh match in `Open`, created at time `now`.
    pub open spec fn opened(&self, game_id: u64, now: i64) -> bool {
        &&& self.game_id == game_id
        &&& self.status == GameStatus::Open
        &&& forall|i: int| 0 <= i < 4 ==> is_zero(#[trigger] self.players[i])
        &&& forall|i: int| 0 <= i < 4 ==> is_zero(#[trigger] self.commit_hashes[i])
        &&& forall|i: int| 0 <= i < 4 ==> is_zero(#[trigger] self.revealed_secrets[i])
        &&& self.deposit_count == 0
        &&& self.reveal_count == 0
        &&& is_zero(self.dice_seed)
        &&& is_zero(self.winner)
        &&& is_zero(self.game_log_hash)
        &&& self.reveal_deadline == 0
        &&& self.created_at == now
        &&& self.started_at == 0
        &&& !self.winner_paid
    }

    /// Whether the counters and status satisfy `wf`.
    pub fn is_wf(&self) -> (r: bool)
        ensures
            r == self.wf(),
    {
        let open = self.status == GameStatus::Open || self.status == GameStatus::Depositing;
        self.deposit_count <= 4 && self.reveal_count <= 4
            && (!open || (self.deposit_count < 4 && self.reveal_count == 0))
            && (self.status != GameStatus::Revealing || self.reveal_count < 4)
    }

    /// A new match in `Open`, created at time `now`.
    pub fn new_open(game_id: u64, now: i64) -> (r: GameState)
        ensures
            r.opened(game_id, now),
            r.wf(),
            r.deposits_tracked(),
            r.reveals_tracked(),
    {
        let z = zero_bytes();
        let r = GameState {
            game_id,
            status: GameStatus::Open,
            players: [z, z, z, z],
            commit_hashes: [z, z, z, z],
            revealed_secrets: [z, z, z, z],
            deposit_count: 0,
            reveal_count: 0,
            dice_seed: z,
            winner: z,
            game_log_hash: z,
            reveal_deadline: 0,
            created_at: now,
            started_at: 0,
            winner_paid: false,
        };
        assert(r.players@ =~= seq![z, z, z, z]);
        assert(r.commit_hashes@ =~= seq![z, z, z, z]);
        assert(r.revealed_secrets@ =~= seq![z, z, z, z]);
        r
    }
}

/// The first roster slot holding `player`.
pub fn find_player_index(game: &GameState, player: &[u8; 32]) -> (r: Result<usize, SettlementError>)
    ensures
        first_slot(game.players, *player) < 4 ==> r == Ok::<usize, SettlementError>(first_slot(game.players, *player) as usize),
        first_slot(game.players, *player) == 4 ==> r == Err::<usize, SettlementError>(SettlementError::NotAPlayer),
        r is Err <==> !game.is_player_spec(*player),
{
    let mut i: usize = 0;
    while i < NUM_PLAYERS
        invariant
            0 <= i <= 4,
            forall|j: int| 0 <= j < i ==> game.players[j] != *player,
        decreases 4 - i,
    {
        if bytes_eq(&game.players[i], player) {
            return Ok(i);
        }
        i = i + 1;
    }
    Err(SettlementError::NotAPlayer)
}

/// Whether `addr` occupies a roster slot.
pub fn is_player(game: &GameState, addr: &[u8; 32]) -> (r: bool)
    ensures
        r == game.is_player_spec(*addr),
{
    find_player_index(game, addr).is_ok()
}

/// Whether `addr` occupies a roster slot with a non-zero commitment.
pub fn has_deposit(game: &GameState, addr: &[u8; 32]) -> (r: bool)
    ensures
        r == game.has_deposit_spec(*addr),
{
    let mut i: usize = 0;
    while i < NUM_PLAYERS
        invariant
            0 <= i <= 4,
            forall|j: int| 0 <= j < i ==> !(game.players[j] == *addr && !is_zero(game.commit_hashes[j])),
        decreases 4 - i,
    {
        if bytes_eq(&game.players[i], addr) && !is_zero_bytes(&game.commit_hashes[i]) {
            return true;
        }
        i = i + 1;
    }
    false
}

/// Why a deposit of `secret_hash` by `player` is rejected, if it is.
pub open spec fn deposit_error(g: GameState, player: [u8; 32], secret_hash: [u8; 32]) -> Option<SettlementError> {
    if !(g.status is Open || g.status is Depositing) {
        Some(SettlementError::InvalidGameStatus)
    } else if is_zero(secret_hash) {
        Some(SettlementError::EmptyCommitHash)
    } else if is_zero(player) {
        Some(SettlementError::NotAPlayer)
    } else if g.has_deposit_spec(player) {
        Some(SettlementError::AlreadyDeposited)
    } else if g.status is Open && first_unclaimed(g.players) == 4 {
        Some(SettlementError::NoEmptySlot)
    } else if g.status is Depositing && first_slot(g.players, player) == 4 {
        Some(SettlementError::NotAPlayer)
    } else {
        None
    }
}

/// The first unclaimed roster slot, or 4 if every slot is claimed.
pub open spec fn first_unclaimed(p: [[u8; 32]; 4]) -> int {
    if is_zero(p[0]) { 0 }
    else if is_zero(p[1]) { 1 }
    else if is_zero(p[2]) { 2 }
    else if is_zero(p[3]) { 3 }
    else { 4 }
}

/// The slot a deposit fills: the first unclaimed one while `Open`, the
/// depositor's own otherwise.
pub open spec fn deposit_slot(g: GameState, player: [u8; 32]) -> int {
    if g.status is Open { first_unclaimed(g.players) } else { first_slot(g.players, player) }
}

/// The match after an accepted deposit at time `now`.
pub open spec fn after_deposit(g: GameState, player: [u8; 32], secret_hash: [u8; 32], now: i64) -> GameState {
    let i = deposit_slot(g, player);
    let d = GameState {
        players: spec_array_update(g.players, i, player),
        commit_hashes: spec_array_update(g.commit_hashes, i, secret_hash),
        deposit_count: (g.deposit_count + 1) as u8,
        ..g
    };
    if d.deposit_count == 4 {
        GameState { status: GameStatus::Revealing, reveal_deadline: (now + REVEAL_TIMEOUT) as i64, ..d }
    } else {
        d
    }
}

/// Takes `player`'s entry stake and records the commitment `secret_hash` at
/// time `now`. The caller moves `ENTRY_FEE` from `player` into the match's
/// custody when this returns `Ok`. The fourth deposit starts the reveal phase
/// and delists the match.
pub fn deposit_and_commit(
    game: &mut GameState,
    platform: &mut PlatformConfig,
    player: &[u8; 32],
    secret_hash: [u8; 32],
    now: i64,
) -> (r: Result<(), SettlementError>)
    requires
        old(game).wf(),
        old(platform).wf(),
        old(game).deposit_count == 3 ==> now <= i64::MAX - REVEAL_TIMEOUT,
    ensures
        final(game).wf(),
        final(platform).wf(),
        deposit_error(*old(game), *player, secret_hash) matches Some(e) ==> {
            &&& r == Err::<(), SettlementError>(e)
            &&& *final(game) == *old(game)
            &&& *final(platform) == *old(platform)
        },
        deposit_error(*old(game), *player, secret_hash) is None ==> {
            &&& r is Ok
            &&& *final(game) == after_deposit(*old(game), *player, secret_hash, now)
            &&& final(platform).owner == old(platform).owner
            &&& final(platform).gm_signer == old(platform).gm_signer
            &&& final(platform).platform_fee_addr == old(platform).platform_fee_addr
            &&& final(platform).game_count == old(platform).game_count
            &&& if final(game).status is Revealing {
                final(platform).open_ids() == swap_remove_spec(old(platform).open_ids(), old(game).game_id)
            } else {
                *final(platform) == *old(platform)
            }
        },
        old(game).deposits_tracked() ==> final(game).deposits_tracked(),
        old(game).reveals_tracked() ==> final(game).reveals_tracked(),
        moves_forward(old(game).status, final(game).status),
{
    if !(game.status == GameStatus::Open || game.status == GameStatus::Depositing) {
        return Err(SettlementError::InvalidGameStatus);
    }
    if is_zero_bytes(&secret_hash) {
        return Err(SettlementError::EmptyCommitHash);
    }
    if is_zero_bytes(player) {
        return Err(SettlementError::NotAPlayer);
    }
    if has_deposit(game, player) {
        return Err(SettlementError::AlreadyDeposited);
    }
    let z = zero_bytes();
    proof {
        assert forall|i: int| 0 <= i < 4 implies (game.players[i] == z <==> is_zero(#[trigger] game.players[i])) by {
            if is_zero(game.players[i]) {
                assert(game.players[i] =~= z);
            }
        }
    }
    let player_idx = if game.status == GameStatus::Open {
        match find_player_index(game, &z) {
            Ok(i) => i,
            Err(_) => {
                return Err(SettlementError::NoEmptySlot);
            },
        }
    } else {
        match find_player_index(game, player) {
            Ok(i) => i,
            Err(e) => {
                return Err(e);
            },
        }
    };
    let ghost g0 = *game;
    if game.status == GameStatus::Open {
        game.players[player_idx] = *player;
    } else {
        proof {
            assert(game.players[player_idx as int] == *player);
            assert(game.players =~= spec_array_update(g0.players, player_idx as int, *player));
        }
    }
    game.commit_hashes[player_idx] = secret_hash;
    game.deposit_count = game.deposit_count + 1;
    if game.deposit_count as usize == NUM_PLAYERS {
        game.status = GameStatus::Revealing;
        game.reveal_deadline = now + REVEAL_TIMEOUT;
        platform.remove_from_open_games(game.game_id);
    }
    proof {
        let i = player_idx as int;
        assert(!is_zero(g0.commit_hashes[i]) ==> g0.has_deposit_spec(g0.players[i]));
        if g0.deposits_tracked() {
            assert(is_zero(g0.commit_hashes[i]));
            assert forall|j: int| 0 <= j < 4 && is_zero(#[trigger] game.players[j]) implies is_zero(game.commit_hashes[j]) by {
                if j != i {
                    assert(game.players[j] == g0.players[j]);
                }
            }
            assert(nonzero_count(game.commit_hashes) == nonzero_count(g0.commit_hashes) + 1);
        }
    }
    Ok(())
}

/// Why a reveal of `secret`, whose digest is `digest`, by `player` is
/// rejected, if it is. The all-zero secret cannot be recorded, since an
/// all-zero slot means "not revealed": it is rejected as a mismatch.
pub open spec fn reveal_error(g: GameState, player: [u8; 32], secret: [u8; 32], digest: Seq<u8>) -> Option<SettlementError> {
    let i = first_slot(g.players, player);
    if !(g.status is Revealing) {
        Some(SettlementError::InvalidGameStatus)
    } else if i == 4 {
        Some(SettlementError::NotAPlayer)
    } else if is_zero(g.commit_hashes[i]) {
        Some(SettlementError::NoCommit)
    } else if !is_zero(g.revealed_secrets[i]) {
        Some(SettlementError::AlreadyRevealed)
    } else if is_zero(secret) || digest != g.commit_hashes[i]@ {
        Some(SettlementError::HashMismatch)
    } else {
        None
    }
}

/// The 32-byte array whose bytes are the seed of `r`.
pub open spec fn seed_array(r: [[u8; 32]; 4]) -> [u8; 32] {
    choose|a: [u8; 32]| a@ == seed_of(r)
}

/// The match after an accepted reveal of `secret` by `player` at time `now`.
/// The fourth reveal derives the seed and starts the match.
pub open spec fn after_reveal(g: GameState, player: [u8; 32], secret: [u8; 32], now: i64) -> GameState {
    let i = first_slot(g.players, player);
    let d = GameState {
        revealed_secrets: spec_array_update(g.revealed_secrets, i, secret),
        reveal_count: (g.reveal_count + 1) as u8,
        ..g
    };
    if d.reveal_count == 4 {
        GameState {
            dice_seed: seed_array(d.revealed_secrets),
            status: GameStatus::Started,
            started_at: now,
            ..d
        }
    } else {
        d
    }
}

/// Exclusive or of the four revealed values.
fn derive_seed(r: &[[u8; 32]; 4]) -> (s: [u8; 32])
    ensures
        s@ == seed_of(*r),
        s == seed_array(*r),
{
    let a = xor_bytes(&r[0], &r[1]);
    let b = xor_bytes(&a, &r[2]);
    let s = xor_bytes(&b, &r[3]);
    proof {
        let c = seed_array(*r);
        assert(c@ == seed_of(*r));
        assert(c =~= s);
    }
    s
}

/// Records `player`'s reveal of `secret` at time `now`, given `digest`, the
/// digest of `secret`. The fourth reveal derives the seed and starts the match.
pub fn reveal_seed_with_digest(
    game: &mut GameState,
    player: &[u8; 32],
    secret: [u8; 32],
    digest: &[u8; 32],
    now: i64,
) -> (r: Result<(), SettlementError>)
    requires
        old(game).wf(),
    ensures
        final(game).wf(),
        reveal_error(*old(game), *player, secret, digest@) matches Some(e) ==> {
            &&& r == Err::<(), SettlementError>(e)
            &&& *final(game) == *old(game)
        },
        reveal_error(*old(game), *player, secret, digest@) is None ==> {
            &&& r is Ok
            &&& *final(game) == after_reveal(*old(game), *player, secret, now)
        },
        old(game).deposits_tracked() ==> final(game).deposits_tracked(),
        old(game).reveals_tracked() ==> final(game).reveals_tracked(),
        moves_forward(old(game).status, final(game).status),
{
    if game.status != GameStatus::Revealing {
        return Err(SettlementError::InvalidGameStatus);
    }
    let player_idx = match find_player_index(game, player) {
        Ok(i) => i,
        Err(e) => {
            return Err(e);
        },
    };
    if is_zero_bytes(&game.commit_hashes[player_idx]) {
        return Err(SettlementError::NoCommit);
    }
    if !is_zero_bytes(&game.revealed_secrets[player_idx]) {
        return Err(SettlementError::AlreadyRevealed);
    }
    if is_zero_bytes(&secret) || !digest_matches(&game.commit_hashes[player_idx], digest) {
        return Err(SettlementError::HashMismatch);
    }
    let ghost g0 = *game;
    game.revealed_secrets[player_idx] = secret;
    game.reveal_count = game.reveal_count + 1;
    if game.reveal_count as usize == NUM_PLAYERS {
        let seed = derive_seed(&game.revealed_secrets);
        game.dice_seed = seed;
        game.status = GameStatus::Started;
        game.started_at = now;
    }
    proof {
        let i = player_idx as int;
        if g0.reveals_tracked() {
            assert(game.revealed_secrets[i] == secret);
            assert(nonzero_count(game.revealed_secrets) == nonzero_count(g0.revealed_secrets) + 1);
        }
    }
    Ok(())
}

/// Records `player`'s reveal of `secret` at time `now` once its Keccak-256
/// digest is found to equal the stored commitment.
pub fn reveal_seed(game: &mut GameState, player: &[u8; 32], secret: [u8; 32], now: i64) -> (r: Result<(), SettlementError>)
    requires
        old(game).wf(),
    ensures
        final(game).wf(),
        reveal_error(*old(game), *player, secret, keccak_of(secret@)) matches Some(e) ==> {
            &&& r == Err::<(), SettlementError>(e)
            &&& *final(game) == *old(game)
        },
        reveal_error(*old(game), *player, secret, keccak_of(secret@)) is None ==> {
            &&& r is Ok
            &&& *final(game) == after_reveal(*old(game), *player, secret, now)
        },
        old(game).deposits_tracked() ==> final(game).deposits_tracked(),
        old(game).reveals_tracked() ==> final(game).reveals_tracked(),
        moves_forward(old(game).status, final(game).status),
{
    let digest = keccak256(&secret);
    reveal_seed_with_digest(game, player, secret, &digest, now)
}

/// Why the host's settlement naming `winner` is rejected, if it is.
pub open spec fn settle_error(platform: PlatformConfig, gm: [u8; 32], g: GameState, winner: [u8; 32]) -> Option<SettlementError> {
    if platform.gm_signer != gm {
        Some(SettlementError::NotGM)
    } else if !(g.status is Started) {
        Some(SettlementError::InvalidGameStatus)
    } else if !g.is_player_spec(winner) {
        Some(SettlementError::WinnerNotPlayer)
    } else {
        None
    }
}

/// Records the host's verdict on a started match: the winner, who must be on
/// the roster, and the digest of the game log.
pub fn settle_game(
    platform: &PlatformConfig,
    gm: &[u8; 32],
    game: &mut GameState,
    winner_pubkey: [u8; 32],
    game_log_hash: [u8; 32],
) -> (r: Result<(), SettlementError>)
    requires
        old(game).wf(),
    ensures
        final(game).wf(),
        settle_error(*platform, *gm, *old(game), winner_pubkey) matches Some(e) ==> {
            &&& r == Err::<(), SettlementError>(e)
            &&& *final(game) == *old(game)
        },
        settle_error(*platform, *gm, *old(game), winner_pubkey) is None ==> {
            &&& r is Ok
            &&& *final(game) == (GameState {
                winner: winner_pubkey,
                game_log_hash,
                status: GameStatus::Settled,
                ..*old(game)
            })
        },
        old(game).deposits_tracked() ==> final(game).deposits_tracked(),
        old(game).reveals_tracked() ==> final(game).reveals_tracked(),
        moves_forward(old(game).status, final(game).status),
{
    if !bytes_eq(&platform.gm_signer, gm) {
        return Err(SettlementError::NotGM);
    }
    if game.status != GameStatus::Started {
        return Err(SettlementError::InvalidGameStatus);
    }
    if !is_player(game, &winner_pubkey) {
        return Err(SettlementError::WinnerNotPlayer);
    }
    game.winner = winner_pubkey;
    game.game_log_hash = game_log_hash;
    game.status = GameStatus::Settled;
    Ok(())
}

/// Why a withdrawal by `caller` is rejected, if it is.
pub open spec fn withdraw_error(g: GameState, caller: [u8; 32]) -> Option<SettlementError> {
    if !(g.status is Settled) {
        Some(SettlementError::InvalidGameStatus)
    } else if caller != g.winner {
        Some(SettlementError::NotWinner)
    } else if g.winner_paid {
        Some(SettlementError::AlreadyPaid)
    } else {
        None
    }
}

/// Pays out a settled match, once, to its recorded winner: the winner's share
/// of the pot to the winner and the rest to the fee recipient. The caller
/// moves the returned amounts out of the match's custody.
pub fn withdraw(game: &mut GameState, platform: &PlatformConfig, caller: &[u8; 32]) -> (r: Result<Payout, SettlementError>)
    requires
        old(game).wf(),
    ensures
        final(game).wf(),
        withdraw_error(*old(game), *caller) matches Some(e) ==> {
            &&& r == Err::<Payout, SettlementError>(e)
            &&& *final(game) == *old(game)
        },
        withdraw_error(*old(game), *caller) is None ==> {
            &&& *final(game) == (GameState { winner_paid: true, ..*old(game) })
            &&& r == Ok::<Payout, SettlementError>(Payout {
                winner: old(game).winner,
                winner_share: winner_share_spec() as u64,
                fee_recipient: platform.platform_fee_addr,
                platform_share: platform_share_spec() as u64,
            })
        },
        old(game).deposits_tracked() ==> final(game).deposits_tracked(),
        old(game).reveals_tracked() ==> final(game).reveals_tracked(),
        moves_forward(old(game).status, final(game).status),
{
    if game.status != GameStatus::Settled {
        return Err(SettlementError::InvalidGameStatus);
    }
    if !bytes_eq(caller, &game.winner) {
        return Err(SettlementError::NotWinner);
    }
    if game.winner_paid {
        return Err(SettlementError::AlreadyPaid);
    }
    game.winner_paid = true;
    let total_pot: u64 = ENTRY_FEE * NUM_PLAYERS as u64;
    let winner_share: u64 = total_pot * WINNER_BPS / 10_000;
    let platform_share: u64 = total_pot - winner_share;
    Ok(Payout {
        winner: game.winner,
        winner_share,
        fee_recipient: platform.platform_fee_addr,
        platform_share,
    })
}

/// Exclusive or of four bytes is unchanged by swapping any two of them.
proof fn lemma_xor4_swaps(a: u8, b: u8, c: u8, d: u8)
    by (bit_vector)
    ensures
        ((a ^ b) ^ c) ^ d == ((b ^ a) ^ c) ^ d,
        ((a ^ b) ^ c) ^ d == ((c ^ b) ^ a) ^ d,
        ((a ^ b) ^ c) ^ d == ((d ^ b) ^ c) ^ a,
        ((a ^ b) ^ c) ^ d == ((a ^ c) ^ b) ^ d,
        ((a ^ b) ^ c) ^ d == ((a ^ d) ^ c) ^ b,
        ((a ^ b) ^ c) ^ d == ((a ^ b) ^ d) ^ c,
{
}

/// The seed does not depend on which slot holds which revealed value:
/// exchanging the values of any two slots leaves it unchanged, so every
/// ordering of the four values gives the same seed.
pub proof fn lemma_seed_order_independent(r: [[u8; 32]; 4], i: int, j: int)
    requires
        0 <= i < 4,
        0 <= j < 4,
    ensures
        seed_of(spec_array_update(spec_array_update(r, i, r[j]), j, r[i])) == seed_of(r),
{
    let s = spec_array_update(spec_array_update(r, i, r[j]), j, r[i]);
    assert forall|k: int| 0 <= k < 32 implies #[trigger] seed_of(s)[k] == seed_of(r)[k] by {
        lemma_xor4_swaps(r[0][k], r[1][k], r[2][k], r[3][k]);
    }
    assert(seed_of(s) =~= seed_of(r));
}

/// A fifth identity cannot join a match whose four slots hold four distinct
/// identities: the deposit is rejected, with `NoEmptySlot` while the match is
/// open and takes a valid commitment.
pub proof fn lemma_full_roster_rejects(g: GameState, player: [u8; 32], secret_hash: [u8; 32])
    requires
        forall|i: int| 0 <= i < 4 ==> !is_zero(#[trigger] g.players[i]),
        forall|i: int, j: int| 0 <= i < j < 4 ==> g.players[i] != g.players[j],
        !g.is_player_spec(player),
    ensures
        deposit_error(g, player, secret_hash) is Some,
        g.status is Open && !is_zero(secret_hash) && !is_zero(player)
            ==> deposit_error(g, player, secret_hash) == Some(SettlementError::NoEmptySlot),
{
    assert(!is_zero(g.players[0]));
    assert(!is_zero(g.players[1]));
    assert(!is_zero(g.players[2]));
    assert(!is_zero(g.players[3]));
    assert(g.players[0] != player);
    assert(g.players[1] != player);
    assert(g.players[2] != player);
    assert(g.players[3] != player);
    assert(!g.has_deposit_spec(player));
}

/// A withdrawal succeeds at most once: after a successful withdrawal, the
/// winner's next attempt fails with `AlreadyPaid`, releasing nothing.
pub proof fn lemma_withdraw_once(g: GameState, caller: [u8; 32])
    requires
        withdraw_error(g, caller) is None,
    ensures
        withdraw_error(GameState { winner_paid: true, ..g }, caller) == Some(SettlementError::AlreadyPaid),
{
}

/// The winner's and the fee recipient's shares add up to the whole pot of
/// four entry stakes: 32_000_000 and 8_000_000 out of 40_000_000.
pub proof fn lemma_shares_split_pot()
    ensures
        winner_share_spec() + platform_share_spec() == ENTRY_FEE as int * 4,
        winner_share_spec() == 32_000_000,
        platform_share_spec() == 8_000_000,
{
}

/// A roster player who has committed and not yet revealed, revealing a
/// secret whose digest differs from the commitment, is rejected with
/// `HashMismatch`; a rejected reveal leaves the match unchanged.
pub proof fn lemma_wrong_secret_rejected(g: GameState, player: [u8; 32], secret: [u8; 32], digest: Seq<u8>)
    requires
        g.status is Revealing,
        g.is_player_spec(player),
        !is_zero(g.commit_hashes[first_slot(g.players, player)]),
        is_zero(g.revealed_secrets[first_slot(g.players, player)]),
        digest != g.commit_hashes[first_slot(g.players, player)]@,
    ensures
        reveal_error(g, player, secret, digest) == Some(SettlementError::HashMismatch),
{
    let i = choose|i: int| 0 <= i < 4 && #[trigger] g.players[i] == player;
    assert(first_slot(g.players, player) < 4);
}

/// The order in which two roster players reveal does not matter: from the
/// same match, the two accepted reveals in either order, at the same time,
/// give the same match, seed included.
pub proof fn lemma_reveals_commute(g: GameState, a: [u8; 32], sa: [u8; 32], b: [u8; 32], sb: [u8; 32], now: i64)
    requires
        g.wf(),
        g.reveal_count + 2 <= 4,
        first_slot(g.players, a) != first_slot(g.players, b),
        reveal_error(g, a, sa, g.commit_hashes[first_slot(g.players, a)]@) is None,
        reveal_error(g, b, sb, g.commit_hashes[first_slot(g.players, b)]@) is None,
    ensures
        after_reveal(after_reveal(g, a, sa, now), b, sb, now) == after_reveal(after_reveal(g, b, sb, now), a, sa, now),
{
    let i = first_slot(g.players, a);
    let j = first_slot(g.players, b);
    let ga = after_reveal(g, a, sa, now);
    let gb = after_reveal(g, b, sb, now);
    assert(ga.players == g.players);
    assert(gb.players == g.players);
    let ra = spec_array_update(spec_array_update(g.revealed_secrets, i, sa), j, sb);
    let rb = spec_array_update(spec_array_update(g.revealed_secrets, j, sb), i, sa);
    assert(ra =~= rb);
}

} // verus!
