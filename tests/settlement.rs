use anchor_lang::solana_program::keccak;
use monopoly_settlement::checkpoint::{write_checkpoint, GameCheckpoint};
use monopoly_settlement::commitment::verify_commitment;
use monopoly_settlement::game::{
    deposit_and_commit, find_player_index, has_deposit, is_player, reveal_seed, reveal_seed_with_digest,
    settle_game, withdraw, GameState, GameStatus, SettlementError,
};
use monopoly_settlement::recovery::{cancel_game, emergency_void, refund_list, void_game, RefundRule};
use monopoly_settlement::registry::{create_open_game, PlatformConfig};
use monopoly_settlement::{ENTRY_FEE, MAX_OPEN_GAMES, PLATFORM_BPS, WINNER_BPS};

const OWNER: [u8; 32] = [100u8; 32];
const GM: [u8; 32] = [101u8; 32];
const FEE: [u8; 32] = [102u8; 32];
const T0: i64 = 1_700_000_000;

fn key(n: u8) -> [u8; 32] {
    [n; 32]
}

fn secret(n: u8) -> [u8; 32] {
    let mut s = [0u8; 32];
    for (j, b) in s.iter_mut().enumerate() {
        *b = n.wrapping_mul(31).wrapping_add(j as u8 * 7 + 1);
    }
    s
}

fn commit(s: &[u8; 32]) -> [u8; 32] {
    keccak::hash(s).to_bytes()
}

fn platform() -> PlatformConfig {
    PlatformConfig::initialize(OWNER, GM, FEE)
}

fn open_ids(p: &PlatformConfig) -> Vec<u64> {
    p.open_game_ids[..p.open_game_count as usize].to_vec()
}

/// A match with all four players deposited, now in the reveal phase.
fn revealing_game(p: &mut PlatformConfig) -> GameState {
    let mut g = create_open_game(p, &GM, T0).unwrap();
    for n in 1..=4u8 {
        deposit_and_commit(&mut g, p, &key(n), commit(&secret(n)), T0 + n as i64).unwrap();
    }
    g
}

fn started_game(p: &mut PlatformConfig) -> GameState {
    let mut g = revealing_game(p);
    for n in 1..=4u8 {
        reveal_seed(&mut g, &key(n), secret(n), T0 + 10).unwrap();
    }
    g
}

fn xor_all(v: &[[u8; 32]]) -> [u8; 32] {
    let mut s = [0u8; 32];
    for x in v {
        for j in 0..32 {
            s[j] ^= x[j];
        }
    }
    s
}

fn nonzero_commitments(g: &GameState) -> u8 {
    g.commit_hashes.iter().filter(|c| **c != [0u8; 32]).count() as u8
}

#[test]
fn initialize_sets_fields() {
    let p = platform();
    assert_eq!(p.owner, OWNER);
    assert_eq!(p.gm_signer, GM);
    assert_eq!(p.platform_fee_addr, FEE);
    assert_eq!(p.game_count, 0);
    assert_eq!(p.open_game_count, 0);
}

#[test]
fn create_requires_gm() {
    let mut p = platform();
    assert_eq!(create_open_game(&mut p, &key(9), T0).unwrap_err(), SettlementError::NotGM);
    assert_eq!(p.game_count, 0);
}

#[test]
fn create_opens_and_lists_game() {
    let mut p = platform();
    let g = create_open_game(&mut p, &GM, T0).unwrap();
    assert_eq!(g.game_id, 0);
    assert_eq!(g.status, GameStatus::Open);
    assert_eq!(g.created_at, T0);
    assert_eq!(g.deposit_count, 0);
    assert_eq!(p.game_count, 1);
    assert_eq!(open_ids(&p), vec![0]);
    let g2 = create_open_game(&mut p, &GM, T0).unwrap();
    assert_eq!(g2.game_id, 1);
    assert_eq!(open_ids(&p), vec![0, 1]);
}

#[test]
fn registry_full_on_twenty_first_create() {
    let mut p = platform();
    for _ in 0..MAX_OPEN_GAMES {
        create_open_game(&mut p, &GM, T0).unwrap();
    }
    assert_eq!(p.open_game_count as usize, MAX_OPEN_GAMES);
    assert_eq!(create_open_game(&mut p, &GM, T0).unwrap_err(), SettlementError::OpenGamesFull);
    assert_eq!(p.open_game_count, 20);
    assert_eq!(p.game_count, 20);
}

#[test]
fn four_deposits_start_reveal_phase() {
    let mut p = platform();
    let mut g = create_open_game(&mut p, &GM, T0).unwrap();
    let other = create_open_game(&mut p, &GM, T0).unwrap();
    for n in 1..=4u8 {
        deposit_and_commit(&mut g, &mut p, &key(n), commit(&secret(n)), T0 + 5).unwrap();
        assert_eq!(g.deposit_count, n);
        assert_eq!(nonzero_commitments(&g), g.deposit_count);
    }
    assert_eq!(g.status, GameStatus::Revealing);
    assert_eq!(g.reveal_deadline, T0 + 5 + 120);
    assert_eq!(g.players, [key(1), key(2), key(3), key(4)]);
    assert_eq!(open_ids(&p), vec![other.game_id]);
    assert_eq!(p.open_game_ids[1], 0);
}

#[test]
fn deposit_errors() {
    let mut p = platform();
    let mut g = create_open_game(&mut p, &GM, T0).unwrap();
    assert_eq!(
        deposit_and_commit(&mut g, &mut p, &key(1), [0u8; 32], T0).unwrap_err(),
        SettlementError::EmptyCommitHash
    );
    deposit_and_commit(&mut g, &mut p, &key(1), commit(&secret(1)), T0).unwrap();
    let before = g;
    assert_eq!(
        deposit_and_commit(&mut g, &mut p, &key(1), commit(&secret(2)), T0).unwrap_err(),
        SettlementError::AlreadyDeposited
    );
    assert_eq!(g.deposit_count, before.deposit_count);
    assert_eq!(g.commit_hashes, before.commit_hashes);
    let mut r = revealing_game(&mut p);
    assert_eq!(
        deposit_and_commit(&mut r, &mut p, &key(5), commit(&secret(5)), T0).unwrap_err(),
        SettlementError::InvalidGameStatus
    );
}

#[test]
fn fifth_depositor_finds_no_slot() {
    let mut p = platform();
    let mut g = create_open_game(&mut p, &GM, T0).unwrap();
    g.players = [key(1), key(2), key(3), key(4)];
    assert_eq!(
        deposit_and_commit(&mut g, &mut p, &key(5), commit(&secret(5)), T0).unwrap_err(),
        SettlementError::NoEmptySlot
    );
    assert_eq!(g.deposit_count, 0);
}

#[test]
fn depositing_status_needs_roster_member() {
    let mut p = platform();
    let mut g = create_open_game(&mut p, &GM, T0).unwrap();
    g.status = GameStatus::Depositing;
    g.players = [key(1), key(2), key(3), key(4)];
    assert_eq!(
        deposit_and_commit(&mut g, &mut p, &key(5), commit(&secret(5)), T0).unwrap_err(),
        SettlementError::NotAPlayer
    );
    deposit_and_commit(&mut g, &mut p, &key(3), commit(&secret(3)), T0).unwrap();
    assert_eq!(g.commit_hashes[2], commit(&secret(3)));
    assert_eq!(g.deposit_count, 1);
    assert_eq!(g.status, GameStatus::Depositing);
}

#[test]
fn all_reveals_start_game_with_xor_seed() {
    let mut p = platform();
    let mut g = revealing_game(&mut p);
    for n in 1..=4u8 {
        reveal_seed(&mut g, &key(n), secret(n), T0 + 50).unwrap();
        assert_eq!(g.reveal_count, n);
    }
    assert_eq!(g.status, GameStatus::Started);
    assert_eq!(g.reveal_count, 4);
    assert_eq!(g.started_at, T0 + 50);
    assert_eq!(g.dice_seed, xor_all(&[secret(1), secret(2), secret(3), secret(4)]));
}

#[test]
fn seed_same_in_every_reveal_order() {
    let mut p = platform();
    let expected = xor_all(&[secret(1), secret(2), secret(3), secret(4)]);
    let mut orders: Vec<Vec<u8>> = Vec::new();
    for a in 1..=4u8 {
        for b in 1..=4u8 {
            for c in 1..=4u8 {
                for d in 1..=4u8 {
                    let o = vec![a, b, c, d];
                    let mut s = o.clone();
                    s.sort();
                    if s == vec![1, 2, 3, 4] {
                        orders.push(o);
                    }
                }
            }
        }
    }
    assert_eq!(orders.len(), 24);
    for o in orders {
        let mut g = revealing_game(&mut p);
        for n in o {
            reveal_seed(&mut g, &key(n), secret(n), T0 + 50).unwrap();
        }
        assert_eq!(g.status, GameStatus::Started);
        assert_eq!(g.dice_seed, expected);
    }
}

#[test]
fn wrong_secret_is_hash_mismatch() {
    let mut p = platform();
    let mut g = revealing_game(&mut p);
    let before = g;
    assert_eq!(reveal_seed(&mut g, &key(1), secret(2), T0).unwrap_err(), SettlementError::HashMismatch);
    assert_eq!(g.revealed_secrets, before.revealed_secrets);
    assert_eq!(g.reveal_count, 0);
}

#[test]
fn reveal_errors() {
    let mut p = platform();
    let mut open = create_open_game(&mut p, &GM, T0).unwrap();
    assert_eq!(reveal_seed(&mut open, &key(1), secret(1), T0).unwrap_err(), SettlementError::InvalidGameStatus);
    let mut g = revealing_game(&mut p);
    assert_eq!(reveal_seed(&mut g, &key(9), secret(9), T0).unwrap_err(), SettlementError::NotAPlayer);
    reveal_seed(&mut g, &key(1), secret(1), T0).unwrap();
    assert_eq!(reveal_seed(&mut g, &key(1), secret(1), T0).unwrap_err(), SettlementError::AlreadyRevealed);
    g.commit_hashes[1] = [0u8; 32];
    assert_eq!(reveal_seed(&mut g, &key(2), secret(2), T0).unwrap_err(), SettlementError::NoCommit);
}

#[test]
fn reveal_with_given_digest() {
    let mut p = platform();
    let mut g = revealing_game(&mut p);
    let digest = commit(&secret(1));
    assert_eq!(
        reveal_seed_with_digest(&mut g, &key(1), secret(1), &[7u8; 32], T0).unwrap_err(),
        SettlementError::HashMismatch
    );
    reveal_seed_with_digest(&mut g, &key(1), [9u8; 32], &digest, T0).unwrap();
    assert_eq!(g.revealed_secrets[0], [9u8; 32]);
    assert_eq!(g.reveal_count, 1);
}

#[test]
fn commitment_check_hashes_secret() {
    let s = secret(3);
    assert!(verify_commitment(&commit(&s), &s));
    assert!(!verify_commitment(&s, &s));
    assert!(!verify_commitment(&commit(&secret(4)), &s));
}

#[test]
fn checkpoint_written_only_by_gm_while_started() {
    let mut p = platform();
    let r = revealing_game(&mut p);
    let mut cp: Option<GameCheckpoint> = None;
    assert_eq!(
        write_checkpoint(&p, &GM, &r, &mut cp, 1, 2, 3, 4).unwrap_err(),
        SettlementError::InvalidGameStatus
    );
    let g = started_game(&mut p);
    assert_eq!(write_checkpoint(&p, &key(1), &g, &mut cp, 1, 2, 3, 4).unwrap_err(), SettlementError::NotGM);
    assert_eq!(cp, None);
    write_checkpoint(&p, &GM, &g, &mut cp, 5, 6, 7, 8).unwrap();
    let first = cp.unwrap();
    assert_eq!(first.game_id, g.game_id);
    assert_eq!(first.round, 5);
    write_checkpoint(&p, &GM, &g, &mut cp, 3, 9, 10, 11).unwrap();
    let second = cp.unwrap();
    assert_eq!(second.round, 3);
    assert_eq!((second.players_packed, second.properties_packed, second.meta_packed), (9, 10, 11));
}

#[test]
fn settle_errors_and_success() {
    let mut p = platform();
    let mut r = revealing_game(&mut p);
    assert_eq!(settle_game(&p, &GM, &mut r, key(1), [1u8; 32]).unwrap_err(), SettlementError::InvalidGameStatus);
    let mut g = started_game(&mut p);
    assert_eq!(settle_game(&p, &key(1), &mut g, key(1), [1u8; 32]).unwrap_err(), SettlementError::NotGM);
    assert_eq!(settle_game(&p, &GM, &mut g, key(9), [1u8; 32]).unwrap_err(), SettlementError::WinnerNotPlayer);
    settle_game(&p, &GM, &mut g, key(2), [5u8; 32]).unwrap();
    assert_eq!(g.status, GameStatus::Settled);
    assert_eq!(g.winner, key(2));
    assert_eq!(g.game_log_hash, [5u8; 32]);
}

#[test]
fn withdraw_pays_once() {
    let mut p = platform();
    let mut g = started_game(&mut p);
    assert_eq!(withdraw(&mut g, &p, &key(2)).unwrap_err(), SettlementError::InvalidGameStatus);
    settle_game(&p, &GM, &mut g, key(2), [5u8; 32]).unwrap();
    assert_eq!(withdraw(&mut g, &p, &key(3)).unwrap_err(), SettlementError::NotWinner);
    let pay = withdraw(&mut g, &p, &key(2)).unwrap();
    assert_eq!(pay.winner, key(2));
    assert_eq!(pay.winner_share, 32_000_000);
    assert_eq!(pay.fee_recipient, FEE);
    assert_eq!(pay.platform_share, 8_000_000);
    assert!(g.winner_paid);
    assert_eq!(withdraw(&mut g, &p, &key(2)).unwrap_err(), SettlementError::AlreadyPaid);
}

#[test]
fn shares_add_up_to_pot() {
    assert_eq!(WINNER_BPS + PLATFORM_BPS, 10_000);
    let pot = ENTRY_FEE * 4;
    let winner = pot * WINNER_BPS / 10_000;
    assert_eq!(winner, 32_000_000);
    assert_eq!(pot - winner, 8_000_000);
}

#[test]
fn void_after_reveal_timeout_refunds_depositors() {
    let mut p = platform();
    let mut g = revealing_game(&mut p);
    let deadline = g.reveal_deadline;
    let payees = vec![key(1), key(2), key(3), key(4)];
    assert_eq!(void_game(&mut g, &payees, deadline).unwrap_err(), SettlementError::CannotVoid);
    assert_eq!(g.status, GameStatus::Revealing);
    let refunds = void_game(&mut g, &payees, T0 + 4 + 121).unwrap();
    assert_eq!(refunds, payees);
    assert_eq!(refunds.len() as u64 * ENTRY_FEE, 40_000_000);
    assert_eq!(g.status, GameStatus::Voided);
    assert_eq!(void_game(&mut g, &payees, T0 + 1000).unwrap_err(), SettlementError::CannotVoid);
}

#[test]
fn void_skips_strangers() {
    let mut p = platform();
    let mut g = revealing_game(&mut p);
    let payees = vec![key(9), key(2), key(2), key(4)];
    let refunds = void_game(&mut g, &payees, T0 + 1000).unwrap();
    assert_eq!(refunds, vec![key(2), key(4)]);
}

#[test]
fn repeated_payee_refunded_once() {
    let mut p = platform();
    let mut g = create_open_game(&mut p, &GM, T0).unwrap();
    deposit_and_commit(&mut g, &mut p, &key(1), commit(&secret(1)), T0).unwrap();
    let payees = vec![key(1), key(1), key(1)];
    assert_eq!(cancel_game(&mut g, &mut p, &payees, T0 + 601).unwrap(), vec![key(1)]);
    let mut s = started_game(&mut p);
    let started = s.started_at;
    let refunds = emergency_void(&mut s, &vec![key(3), key(1), key(3)], started + 86401).unwrap();
    assert_eq!(refunds, vec![key(3), key(1)]);
}

#[test]
fn zero_secret_never_counts_as_reveal() {
    let mut p = platform();
    let mut g = revealing_game(&mut p);
    g.commit_hashes[0] = commit(&[0u8; 32]);
    assert_eq!(reveal_seed(&mut g, &key(1), [0u8; 32], T0).unwrap_err(), SettlementError::HashMismatch);
    assert_eq!(g.reveal_count, 0);
    assert_eq!(g.revealed_secrets[0], [0u8; 32]);
}

#[test]
fn zero_identity_cannot_deposit() {
    let mut p = platform();
    let mut g = create_open_game(&mut p, &GM, T0).unwrap();
    assert_eq!(
        deposit_and_commit(&mut g, &mut p, &[0u8; 32], commit(&secret(1)), T0).unwrap_err(),
        SettlementError::NotAPlayer
    );
    assert_eq!(g.deposit_count, 0);
    assert_eq!(g.commit_hashes, [[0u8; 32]; 4]);
}

#[test]
fn remove_zeroes_vacated_slot_and_ignores_absent() {
    let mut p = platform();
    for _ in 0..3 {
        create_open_game(&mut p, &GM, T0).unwrap();
    }
    let before = p.open_game_ids;
    p.remove_from_open_games(9);
    assert_eq!(p.open_game_ids, before);
    assert_eq!(p.open_game_count, 3);
    p.remove_from_open_games(0);
    assert_eq!(p.open_game_count, 2);
    assert_eq!(&p.open_game_ids[..3], &[2, 1, 0]);
    assert_eq!(p.open_game_ids[2], 0);
}

#[test]
fn cancel_open_game_refunds_two_depositors() {
    let mut p = platform();
    let mut g = create_open_game(&mut p, &GM, T0).unwrap();
    deposit_and_commit(&mut g, &mut p, &key(1), commit(&secret(1)), T0 + 1).unwrap();
    deposit_and_commit(&mut g, &mut p, &key(2), commit(&secret(2)), T0 + 2).unwrap();
    let payees = vec![key(1), key(2), key(3)];
    assert_eq!(cancel_game(&mut g, &mut p, &payees, T0 + 600).unwrap_err(), SettlementError::CannotCancel);
    assert_eq!(open_ids(&p), vec![g.game_id]);
    let refunds = cancel_game(&mut g, &mut p, &payees, T0 + 601).unwrap();
    assert_eq!(refunds, vec![key(1), key(2)]);
    assert_eq!(g.status, GameStatus::Voided);
    assert_eq!(open_ids(&p), Vec::<u64>::new());
    assert_eq!(p.open_game_count, 0);
}

#[test]
fn cancel_refused_once_revealing() {
    let mut p = platform();
    let mut g = revealing_game(&mut p);
    assert_eq!(cancel_game(&mut g, &mut p, &vec![key(1)], T0 + 10_000).unwrap_err(), SettlementError::CannotCancel);
}

#[test]
fn emergency_void_after_game_timeout() {
    let mut p = platform();
    let mut g = started_game(&mut p);
    let payees = vec![key(1), key(7), key(3)];
    let started = g.started_at;
    assert_eq!(
        emergency_void(&mut g, &payees, started + 86400).unwrap_err(),
        SettlementError::CannotEmergencyVoid
    );
    let refunds = emergency_void(&mut g, &payees, started + 86401).unwrap();
    assert_eq!(refunds, vec![key(1), key(3)]);
    assert_eq!(g.status, GameStatus::Voided);
}

#[test]
fn refund_rules_differ() {
    let mut p = platform();
    let mut g = create_open_game(&mut p, &GM, T0).unwrap();
    g.players = [key(1), key(2), [0u8; 32], [0u8; 32]];
    g.commit_hashes[0] = [3u8; 32];
    let payees = vec![key(1), key(2), key(3)];
    assert_eq!(refund_list(&g, RefundRule::RosterWithDeposit, &payees), vec![key(1)]);
    assert_eq!(refund_list(&g, RefundRule::Deposit, &payees), vec![key(1)]);
    assert_eq!(refund_list(&g, RefundRule::Roster, &payees), vec![key(1), key(2)]);
    assert!(is_player(&g, &key(2)));
    assert!(!has_deposit(&g, &key(2)));
    assert_eq!(find_player_index(&g, &key(2)), Ok(1));
    assert_eq!(find_player_index(&g, &key(3)), Err(SettlementError::NotAPlayer));
}

#[test]
fn admin_updates_need_owner() {
    let mut p = platform();
    assert_eq!(p.set_gm_signer(&GM, key(8)).unwrap_err(), SettlementError::NotOwner);
    assert_eq!(p.set_platform_fee_addr(&key(1), key(8)).unwrap_err(), SettlementError::NotOwner);
    assert_eq!(p.gm_signer, GM);
    p.set_gm_signer(&OWNER, key(8)).unwrap();
    p.set_platform_fee_addr(&OWNER, key(9)).unwrap();
    assert_eq!(p.gm_signer, key(8));
    assert_eq!(p.platform_fee_addr, key(9));
}

#[test]
fn remove_swaps_last_into_place() {
    let mut p = platform();
    for _ in 0..4 {
        create_open_game(&mut p, &GM, T0).unwrap();
    }
    p.remove_from_open_games(1);
    assert_eq!(open_ids(&p), vec![0, 3, 2]);
    p.remove_from_open_games(42);
    assert_eq!(open_ids(&p), vec![0, 3, 2]);
    assert_eq!(p.add_open_game(7), Ok(()));
    assert_eq!(open_ids(&p), vec![0, 3, 2, 7]);
}

#[test]
fn status_default_is_pending() {
    assert_eq!(GameStatus::default(), GameStatus::Pending);
}
