//! Deadline-gated recovery: voiding or cancelling a stuck match and picking,
//! from a caller-supplied list of payees, those owed their stake back.

use vstd::prelude::*;
use crate::bytes::bytes_eq;
use crate::game::{has_deposit, is_player, moves_forward, GameState, GameStatus, SettlementError};
use crate::registry::{swap_remove_spec, PlatformConfig};
use crate::{DEPOSIT_TIMEOUT, GAME_TIMEOUT};

verus! {

/// Which payees a recovery path refunds.
#[derive(Clone, Copy, PartialEq, Eq, Debug, Structural)]
pub enum RefundRule {
    /// Roster players with a recorded commitment.
    RosterWithDeposit,
    /// Payees with a recorded commitment.
    Deposit,
    /// Roster players, deposited or not.
    Roster,
}

/// Whether `k` is owed its stake back under `rule`.
pub open spec fn eligible(g: GameState, rule: RefundRule, k: [u8; 32]) -> bool {
    match rule {
        RefundRule::RosterWithDeposit => g.is_player_spec(k) && g.has_deposit_spec(k),
        RefundRule::Deposit => g.has_deposit_spec(k),
        RefundRule::Roster => g.is_player_spec(k),
    }
}

/// The payees of `payees` owed a refund under `rule`, in order of first
/// listing, each once however often it is listed.
pub open spec fn refunds_spec(g: GameState, rule: RefundRule, payees: Seq<[u8; 32]>) -> Seq<[u8; 32]>
    decreases payees.len(),
{
    if payees.len() == 0 {
        Seq::empty()
    } else {
        let prev = refunds_spec(g, rule, payees.drop_last());
        let k = payees.last();
        if eligible(g, rule, k) && !prev.contains(k) {
            prev.push(k)
        } else {
            prev
        }
    }
}

/// Whether `k` is owed its stake back under `rule`.
pub fn is_eligible(game: &GameState, rule: RefundRule, k: &[u8; 32]) -> (r: bool)
    ensures
        r == eligible(*game, rule, *k),
{
    match rule {
        RefundRule::RosterWithDeposit => is_player(game, k) && has_deposit(game, k),
        RefundRule::Deposit => has_deposit(game, k),
        RefundRule::Roster => is_player(game, k),
    }
}

/// Whether `k` occurs in `v`.
fn contains_key(v: &Vec<[u8; 32]>, k: &[u8; 32]) -> (r: bool)
    ensures
        r == v@.contains(*k),
{
    let mut i: usize = 0;
    while i < v.len()
        invariant
            0 <= i <= v.len(),
            forall|j: int| 0 <= j < i ==> v@[j] != *k,
        decreases v.len() - i,
    {
        if bytes_eq(&v[i], k) {
            assert(v@[i as int] == *k);
            return true;
        }
        i = i + 1;
    }
    false
}

/// The payees of `payees` owed a refund under `rule`, in order of first
/// listing, each once.
pub fn refund_list(game: &GameState, rule: RefundRule, payees: &Vec<[u8; 32]>) -> (r: Vec<[u8; 32]>)
    ensures
        r@ == refunds_spec(*game, rule, payees@),
        r@.no_duplicates(),
        forall|k: [u8; 32]| #[trigger] r@.contains(k) <==> payees@.contains(k) && eligible(*game, rule, k),
{
    assert(payees@.subrange(0, 0) =~= Seq::<[u8; 32]>::empty());
    let mut out: Vec<[u8; 32]> = Vec::new();
    let mut i: usize = 0;
    while i < payees.len()
        invariant
            0 <= i <= payees.len(),
            out@ == refunds_spec(*game, rule, payees@.subrange(0, i as int)),
            out@.no_duplicates(),
            forall|k: [u8; 32]| #[trigger] out@.contains(k)
                <==> payees@.subrange(0, i as int).contains(k) && eligible(*game, rule, k),
        decreases payees.len() - i,
    {
        let k = payees[i];
        let ghost pre = payees@.subrange(0, i as int);
        let ghost next = payees@.subrange(0, i as int + 1);
        assert(next.drop_last() =~= pre);
        assert(next.last() == k);
        let ghost old_out = out@;
        if is_eligible(game, rule, &k) && !contains_key(&out, &k) {
            out.push(k);
        }
        proof {
            assert forall|x: [u8; 32]| #[trigger] next.contains(x) <==> pre.contains(x) || x == k by {
                if next.contains(x) {
                    let j = choose|j: int| 0 <= j < next.len() && next[j] == x;
                    if j < i {
                        assert(pre[j] == x);
                    }
                }
                if pre.contains(x) {
                    let j = choose|j: int| 0 <= j < pre.len() && pre[j] == x;
                    assert(next[j] == x);
                }
                if x == k {
                    assert(next[i as int] == x);
                }
            }
            assert forall|x: [u8; 32]| #[trigger] out@.contains(x) <==> old_out.contains(x) || (x == k && out@ != old_out) by {
                if out@ != old_out {
                    assert(out@ == old_out.push(k));
                    if out@.contains(x) {
                        let j = choose|j: int| 0 <= j < out@.len() && out@[j] == x;
                        if j < old_out.len() {
                            assert(old_out[j] == x);
                        }
                    }
                    if old_out.contains(x) {
                        let j = choose|j: int| 0 <= j < old_out.len() && old_out[j] == x;
                        assert(out@[j] == x);
                    }
                    if x == k {
                        assert(out@[old_out.len() as int] == x);
                    }
                }
            }
        }
        i = i + 1;
    }
    assert(payees@.subrange(0, payees@.len() as int) =~= payees@);
    out
}

/// Whether the reveal phase has run out at time `now`.
pub open spec fn can_void(g: GameState, now: i64) -> bool {
    g.status is Revealing && now > g.reveal_deadline
}

/// Whether an unfilled match may be cancelled at time `now`.
pub open spec fn can_cancel(g: GameState, now: i64) -> bool {
    (g.status is Depositing || g.status is Open) && now as int > g.created_at as int + DEPOSIT_TIMEOUT as int
}

/// Whether a running match has overrun at time `now`.
pub open spec fn can_emergency_void(g: GameState, now: i64) -> bool {
    g.status is Started && now as int > g.started_at as int + GAME_TIMEOUT as int
}

/// Voids a match whose reveal phase ran out, and returns the listed payees
/// owed `ENTRY_FEE` each: roster players who deposited. The caller moves the
/// stakes.
pub fn void_game(game: &mut GameState, payees: &Vec<[u8; 32]>, now: i64) -> (r: Result<Vec<[u8; 32]>, SettlementError>)
    requires
        old(game).wf(),
    ensures
        final(game).wf(),
        !can_void(*old(game), now) ==> r == Err::<Vec<[u8; 32]>, SettlementError>(SettlementError::CannotVoid)
            && *final(game) == *old(game),
        can_void(*old(game), now) ==> {
            &&& *final(game) == (GameState { status: GameStatus::Voided, ..*old(game) })
            &&& r matches Ok(v) && v@ == refunds_spec(*old(game), RefundRule::RosterWithDeposit, payees@) && v@.no_duplicates()
        },
        old(game).deposits_tracked() ==> final(game).deposits_tracked(),
        old(game).reveals_tracked() ==> final(game).reveals_tracked(),
        moves_forward(old(game).status, final(game).status),
{
    if !(game.status == GameStatus::Revealing && now > game.reveal_deadline) {
        return Err(SettlementError::CannotVoid);
    }
    let refunds = refund_list(game, RefundRule::RosterWithDeposit, payees);
    game.status = GameStatus::Voided;
    Ok(refunds)
}

/// Cancels a match still short of players once the deposit window has
/// passed, delisting it if it was open, and returns the listed payees owed
/// `ENTRY_FEE` each: those with a recorded commitment. The caller moves the
/// stakes.
pub fn cancel_game(
    game: &mut GameState,
    platform: &mut PlatformConfig,
    payees: &Vec<[u8; 32]>,
    now: i64,
) -> (r: Result<Vec<[u8; 32]>, SettlementError>)
    requires
        old(game).wf(),
        old(platform).wf(),
    ensures
        final(game).wf(),
        final(platform).wf(),
        !can_cancel(*old(game), now) ==> {
            &&& r == Err::<Vec<[u8; 32]>, SettlementError>(SettlementError::CannotCancel)
            &&& *final(game) == *old(game)
            &&& *final(platform) == *old(platform)
        },
        can_cancel(*old(game), now) ==> {
            &&& *final(game) == (GameState { status: GameStatus::Voided, ..*old(game) })
            &&& r matches Ok(v) && v@ == refunds_spec(*old(game), RefundRule::Deposit, payees@) && v@.no_duplicates()
            &&& final(platform).owner == old(platform).owner
            &&& final(platform).gm_signer == old(platform).gm_signer
            &&& final(platform).platform_fee_addr == old(platform).platform_fee_addr
            &&& final(platform).game_count == old(platform).game_count
            &&& if old(game).status is Open {
                final(platform).open_ids() == swap_remove_spec(old(platform).open_ids(), old(game).game_id)
            } else {
                *final(platform) == *old(platform)
            }
        },
        old(game).deposits_tracked() ==> final(game).deposits_tracked(),
        old(game).reveals_tracked() ==> final(game).reveals_tracked(),
        moves_forward(old(game).status, final(game).status),
{
    let deadline: i128 = game.created_at as i128 + DEPOSIT_TIMEOUT as i128;
    if !((game.status == GameStatus::Depositing || game.status == GameStatus::Open) && now as i128 > deadline) {
        return Err(SettlementError::CannotCancel);
    }
    if game.status == GameStatus::Open {
        platform.remove_from_open_games(game.game_id);
    }
    let refunds = refund_list(game, RefundRule::Deposit, payees);
    game.status = GameStatus::Voided;
    Ok(refunds)
}

/// Voids a started match that overran its time limit, and returns the listed
/// payees owed `ENTRY_FEE` each: roster players. The caller moves the stakes.
pub fn emergency_void(game: &mut GameState, payees: &Vec<[u8; 32]>, now: i64) -> (r: Result<Vec<[u8; 32]>, SettlementError>)
    requires
        old(game).wf(),
    ensures
        final(game).wf(),
        !can_emergency_void(*old(game), now)
            ==> r == Err::<Vec<[u8; 32]>, SettlementError>(SettlementError::CannotEmergencyVoid)
            && *final(game) == *old(game),
        can_emergency_void(*old(game), now) ==> {
            &&& *final(game) == (GameState { status: GameStatus::Voided, ..*old(game) })
            &&& r matches Ok(v) && v@ == refunds_spec(*old(game), RefundRule::Roster, payees@) && v@.no_duplicates()
        },
        old(game).deposits_tracked() ==> final(game).deposits_tracked(),
        old(game).reveals_tracked() ==> final(game).reveals_tracked(),
        moves_forward(old(game).status, final(game).status),
{
    let deadline: i128 = game.started_at as i128 + GAME_TIMEOUT as i128;
    if !(game.status == GameStatus::Started && now as i128 > deadline) {
        return Err(SettlementError::CannotEmergencyVoid);
    }
    let refunds = refund_list(game, RefundRule::Roster, payees);
    game.status = GameStatus::Voided;
    Ok(refunds)
}

} // verus!
