//! The singleton configuration and its bounded list of open matches.

use vstd::prelude::*;
use crate::bytes::bytes_eq;
use crate::game::{GameState, SettlementError};
use crate::MAX_OPEN_GAMES;

verus! {

/// Process-wide configuration: authorities, fee recipient, match counter and
/// the ids of matches still awaiting players.
#[derive(Clone, Copy, Debug)]
pub struct PlatformConfig {
    pub owner: [u8; 32],
    pub gm_signer: [u8; 32],
    pub platform_fee_addr: [u8; 32],
    pub game_count: u64,
    pub open_game_ids: [u64; 20],
    pub open_game_count: u8,
}

/// Whether `id` occurs in `s` at index `i` and nowhere before it.
pub open spec fn first_at(s: Seq<u64>, id: u64, i: int) -> bool {
    &&& 0 <= i < s.len()
    &&& s[i] == id
    &&& forall|j: int| 0 <= j < i ==> s[j] != id
}

/// The first index of `id` in `s`, where it occurs.
pub open spec fn first_index(s: Seq<u64>, id: u64) -> int {
    choose|i: int| first_at(s, id, i)
}

/// The open list after removing `id`: its first occurrence is replaced by the
/// last entry and the list shrinks by one; unchanged when `id` is absent.
pub open spec fn swap_remove_spec(s: Seq<u64>, id: u64) -> Seq<u64> {
    if exists|i: int| first_at(s, id, i) {
        let i = first_index(s, id);
        s.update(i, s.last()).drop_last()
    } else {
        s
    }
}

impl PlatformConfig {
    /// The ids of the open matches, in list order.
    pub open spec fn open_ids(&self) -> Seq<u64> {
        self.open_game_ids@.subrange(0, self.open_game_count as int)
    }

    /// The list stays within capacity, and holds distinct ids of matches
    /// already created.
    pub open spec fn wf(&self) -> bool {
        &&& self.open_game_count <= 20
        &&& self.open_ids().no_duplicates()
        &&& forall|i: int| 0 <= i < self.open_ids().len() ==> #[trigger] self.open_ids()[i] < self.game_count
    }

    /// A fresh configuration: no match created yet, none open.
    pub fn initialize(owner: [u8; 32], gm_signer: [u8; 32], platform_fee_addr: [u8; 32]) -> (r: PlatformConfig)
        ensures
            r.wf(),
            r.owner == owner,
            r.gm_signer == gm_signer,
            r.platform_fee_addr == platform_fee_addr,
            r.game_count == 0,
            r.open_ids() == Seq::<u64>::empty(),
            forall|i: int| 0 <= i < 20 ==> #[trigger] r.open_game_ids[i] == 0,
    {
        let r = PlatformConfig {
            owner,
            gm_signer,
            platform_fee_addr,
            game_count: 0,
            open_game_ids: [0u64; 20],
            open_game_count: 0,
        };
        assert(r.open_ids() =~= Seq::<u64>::empty());
        r
    }

    /// Whether the open list satisfies `wf`.
    pub fn is_wf(&self) -> (r: bool)
        ensures
            r == self.wf(),
    {
        if self.open_game_count > 20 {
            return false;
        }
        let count = self.open_game_count as usize;
        let ghost s = self.open_ids();
        let mut i: usize = 0;
        while i < count
            invariant
                count == self.open_game_count,
                count <= 20,
                s == self.open_ids(),
                0 <= i <= count,
                forall|a: int| 0 <= a < i ==> s[a] < self.game_count,
                forall|a: int, b: int| 0 <= a < b < count && a < i ==> s[a] != s[b],
            decreases count - i,
        {
            if self.open_game_ids[i] >= self.game_count {
                assert(self.open_ids()[i as int] >= self.game_count);
                return false;
            }
            let mut j: usize = i + 1;
            while j < count
                invariant
                    count == self.open_game_count,
                    count <= 20,
                    s == self.open_ids(),
                    i < count,
                    i + 1 <= j <= count,
                    forall|b: int| i < b < j ==> s[i as int] != s[b],
                decreases count - j,
            {
                if self.open_game_ids[i] == self.open_game_ids[j] {
                    assert(s[i as int] == s[j as int]);
                    assert(!s.no_duplicates());
                    return false;
                }
                j = j + 1;
            }
            i = i + 1;
        }
        proof {
            assert forall|a: int, b: int| 0 <= a < s.len() && 0 <= b < s.len() && a != b implies s[a] != s[b] by {
                if a > b {
                    assert(s[b] != s[a]);
                }
            }
        }
        true
    }

    /// Whether the open list is at capacity.
    pub fn is_full(&self) -> (r: bool)
        ensures
            r == (self.open_game_count as int >= 20),
    {
        (self.open_game_count as usize) >= MAX_OPEN_GAMES
    }

    /// Appends `id` to the open list.
    pub fn add_open_game(&mut self, id: u64) -> (r: Result<(), SettlementError>)
        requires
            old(self).open_game_count <= 20,
        ensures
            old(self).open_game_count >= 20 ==> r == Err::<(), SettlementError>(SettlementError::OpenGamesFull)
                && *final(self) == *old(self),
            old(self).open_game_count < 20 ==> r is Ok
                && final(self).open_ids() == old(self).open_ids().push(id)
                && final(self).open_game_count == old(self).open_game_count + 1,
            final(self).owner == old(self).owner,
            final(self).gm_signer == old(self).gm_signer,
            final(self).platform_fee_addr == old(self).platform_fee_addr,
            final(self).game_count == old(self).game_count,
    {
        if self.is_full() {
            return Err(SettlementError::OpenGamesFull);
        }
        let idx = self.open_game_count as usize;
        self.open_game_ids[idx] = id;
        self.open_game_count = self.open_game_count + 1;
        assert(self.open_ids() =~= old(self).open_ids().push(id));
        Ok(())
    }

    /// Removes `id` from the open list by moving the last entry into its
    /// place; does nothing when `id` is not listed.
    pub fn remove_from_open_games(&mut self, game_id: u64)
        requires
            old(self).open_game_count <= 20,
        ensures
            final(self).open_ids() == swap_remove_spec(old(self).open_ids(), game_id),
            final(self).open_game_count <= 20,
            (exists|i: int| first_at(old(self).open_ids(), game_id, i)) ==> {
                let c = old(self).open_game_count as int;
                &&& final(self).open_game_count == c - 1
                &&& final(self).open_game_ids@ == old(self).open_game_ids@
                    .update(first_index(old(self).open_ids(), game_id), old(self).open_game_ids@[c - 1])
                    .update(c - 1, 0)
            },
            !(exists|i: int| first_at(old(self).open_ids(), game_id, i)) ==> *final(self) == *old(self),
            final(self).owner == old(self).owner,
            final(self).gm_signer == old(self).gm_signer,
            final(self).platform_fee_addr == old(self).platform_fee_addr,
            final(self).game_count == old(self).game_count,
            old(self).wf() ==> final(self).wf(),
            old(self).wf() ==> !final(self).open_ids().contains(game_id),
            old(self).wf() ==> forall|x: u64| #[trigger] final(self).open_ids().contains(x)
                <==> old(self).open_ids().contains(x) && x != game_id,
    {
        let count = self.open_game_count as usize;
        let ghost s = old(self).open_ids();
        let mut i: usize = 0;
        while i < count
            invariant
                *self == *old(self),
                count == self.open_game_count,
                count <= 20,
                s == self.open_ids(),
                0 <= i <= count,
                forall|j: int| 0 <= j < i ==> s[j] != game_id,
            decreases count - i,
        {
            if self.open_game_ids[i] == game_id {
                let last = self.open_game_ids[count - 1];
                self.open_game_ids[i] = last;
                self.open_game_ids[count - 1] = 0;
                self.open_game_count = self.open_game_count - 1;
                proof {
                    assert(first_at(s, game_id, i as int));
                    let c = choose|c: int| first_at(s, game_id, c);
                    assert(c == i as int) by {
                        if c < i as int {
                            assert(s[c] != game_id);
                        }
                        if c > i as int {
                            assert(s[i as int] != game_id);
                        }
                    }
                    assert(self.open_ids() =~= s.update(i as int, s.last()).drop_last());
                    assert(self.open_game_ids@ =~= old(self).open_game_ids@.update(i as int, old(self).open_game_ids@[count - 1])
                        .update(count - 1, 0));
                    lemma_swap_remove_facts(s, game_id, i as int, old(self).game_count);
                }
                return;
            }
            i = i + 1;
        }
        proof {
            assert(!(exists|c: int| first_at(s, game_id, c)));
            assert(!s.contains(game_id));
        }
    }

    /// Rejection by owner check: a caller other than the owner gets
    /// `NotOwner` and nothing changes; the owner always succeeds.
    pub open spec fn owner_rejects(&self, caller: &[u8; 32], r: Result<(), SettlementError>) -> bool {
        &&& self.owner != *caller ==> r == Err::<(), SettlementError>(SettlementError::NotOwner)
        &&& self.owner == *caller ==> r is Ok
    }

    /// Replaces the host authority; only the owner may do so.
    pub fn set_gm_signer(&mut self, caller: &[u8; 32], new_gm: [u8; 32]) -> (r: Result<(), SettlementError>)
        ensures
            old(self).owner_rejects(caller, r),
            r is Err ==> *final(self) == *old(self),
            r is Ok ==> *final(self) == (PlatformConfig { gm_signer: new_gm, ..*old(self) }),
    {
        if !bytes_eq(&self.owner, caller) {
            return Err(SettlementError::NotOwner);
        }
        self.gm_signer = new_gm;
        Ok(())
    }

    /// Replaces the fee recipient; only the owner may do so.
    pub fn set_platform_fee_addr(&mut self, caller: &[u8; 32], new_addr: [u8; 32]) -> (r: Result<(), SettlementError>)
        ensures
            old(self).owner_rejects(caller, r),
            r is Err ==> *final(self) == *old(self),
            r is Ok ==> *final(self) == (PlatformConfig { platform_fee_addr: new_addr, ..*old(self) }),
    {
        if !bytes_eq(&self.owner, caller) {
            return Err(SettlementError::NotOwner);
        }
        self.platform_fee_addr = new_addr;
        Ok(())
    }
}

/// Facts about the list after a swap-removal at the first occurrence `i`.
proof fn lemma_swap_remove_facts(s: Seq<u64>, id: u64, i: int, bound: u64)
    requires
        first_at(s, id, i),
    ensures
        s.no_duplicates() ==> s.update(i, s.last()).drop_last().no_duplicates(),
        (forall|j: int| 0 <= j < s.len() ==> #[trigger] s[j] < bound)
            ==> (forall|j: int| 0 <= j < s.len() - 1 ==> #[trigger] s.update(i, s.last()).drop_last()[j] < bound),
        s.no_duplicates() ==> forall|x: u64| #[trigger] s.update(i, s.last()).drop_last().contains(x)
            <==> s.contains(x) && x != id,
{
    let t = s.update(i, s.last()).drop_last();
    let n = s.len() - 1;
    if s.no_duplicates() {
        assert forall|a: int, b: int| 0 <= a < t.len() && 0 <= b < t.len() && a != b implies t[a] != t[b] by {
            if a == i {
                assert(t[a] == s[n]);
            } else if b == i {
                assert(t[b] == s[n]);
            }
        }
        assert forall|x: u64| #[trigger] t.contains(x) <==> s.contains(x) && x != id by {
            if t.contains(x) {
                let k = choose|k: int| 0 <= k < t.len() && t[k] == x;
                if k == i {
                    assert(s[n] == x);
                    assert(n != i ==> s[n] != s[i]);
                } else {
                    assert(s[k] == x);
                }
            }
            if s.contains(x) && x != id {
                let k = choose|k: int| 0 <= k < s.len() && s[k] == x;
                if k == n {
                    assert(t[i] == x);
                } else {
                    assert(k != i);
                    assert(t[k] == x);
                }
            }
        }
    }
}

} // verus!

verus! {

/// Opens a new match with the next id and lists it as open. Only the host
/// authority may do so, and only while the open list has room.
pub fn create_open_game(platform: &mut PlatformConfig, gm: &[u8; 32], now: i64) -> (r: Result<GameState, SettlementError>)
    requires
        old(platform).wf(),
        old(platform).game_count < u64::MAX,
    ensures
        final(platform).wf(),
        old(platform).gm_signer != *gm ==> r == Err::<GameState, SettlementError>(SettlementError::NotGM),
        old(platform).gm_signer == *gm && old(platform).open_game_count >= 20
            ==> r == Err::<GameState, SettlementError>(SettlementError::OpenGamesFull),
        r is Err ==> *final(platform) == *old(platform),
        old(platform).gm_signer == *gm && old(platform).open_game_count < 20 ==> r is Ok,
        r matches Ok(g) ==> {
            &&& g.opened(old(platform).game_count, now)
            &&& g.wf()
            &&& g.deposits_tracked()
            &&& final(platform).game_count == old(platform).game_count + 1
            &&& final(platform).open_ids() == old(platform).open_ids().push(old(platform).game_count)
            &&& final(platform).owner == old(platform).owner
            &&& final(platform).gm_signer == old(platform).gm_signer
            &&& final(platform).platform_fee_addr == old(platform).platform_fee_addr
        },
{
    if !bytes_eq(&platform.gm_signer, gm) {
        return Err(SettlementError::NotGM);
    }
    if platform.is_full() {
        return Err(SettlementError::OpenGamesFull);
    }
    let game_id = platform.game_count;
    let game = GameState::new_open(game_id, now);
    let added = platform.add_open_game(game_id);
    platform.game_count = platform.game_count + 1;
    proof {
        let s = old(platform).open_ids();
        let t = platform.open_ids();
        assert(t == s.push(game_id));
        assert forall|a: int, b: int| 0 <= a < t.len() && 0 <= b < t.len() && a != b implies t[a] != t[b] by {
            if a == s.len() {
                assert(s[b] < game_id);
            } else if b == s.len() {
                assert(s[a] < game_id);
            }
        }
        assert forall|i: int| 0 <= i < t.len() implies #[trigger] t[i] < platform.game_count by {
            if i < s.len() {
                assert(s[i] < game_id);
            }
        }
    }
    Ok(game)
}

} // verus!
