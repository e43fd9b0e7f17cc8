//! Deterministic addresses of the stored entities, derived from their kind
//! and identifying fields.

use vstd::prelude::*;

verus! {

/// The kinds of stored entity.
#[derive(Clone, Copy, PartialEq, Eq, Debug, Structural)]
pub enum AccountKind {
    Platform,
    Game,
    Checkpoint,
}

/// The `k` low bytes of `n`, least significant first.
pub open spec fn le_bytes(n: nat, k: nat) -> Seq<u8>
    decreases k,
{
    if k == 0 {
        Seq::empty()
    } else {
        seq![(n % 256) as u8] + le_bytes(n / 256, (k - 1) as nat)
    }
}

/// The ASCII bytes of "platform".
pub open spec fn platform_tag() -> Seq<u8> {
    seq![112u8, 108u8, 97u8, 116u8, 102u8, 111u8, 114u8, 109u8]
}

/// The ASCII bytes of "game".
pub open spec fn game_tag() -> Seq<u8> {
    seq![103u8, 97u8, 109u8, 101u8]
}

/// The ASCII bytes of "checkpoint".
pub open spec fn checkpoint_tag() -> Seq<u8> {
    seq![99u8, 104u8, 101u8, 99u8, 107u8, 112u8, 111u8, 105u8, 110u8, 116u8]
}

/// The seeds that address an entity: its kind's tag, then for a match or its
/// checkpoint the match id in eight little-endian bytes.
pub open spec fn seeds_spec(kind: AccountKind, game_id: u64) -> Seq<Seq<u8>> {
    match kind {
        AccountKind::Platform => seq![platform_tag()],
        AccountKind::Game => seq![game_tag(), le_bytes(game_id as nat, 8)],
        AccountKind::Checkpoint => seq![checkpoint_tag(), le_bytes(game_id as nat, 8)],
    }
}

/// The program-derived address and bump for `seeds` under `program_id`, if
/// one exists.
pub uninterp spec fn program_address_of(seeds: Seq<Seq<u8>>, program_id: Seq<u8>) -> Option<(Seq<u8>, u8)>;

/// Relies on `Pubkey::try_find_program_address` of solana_program (re-exported
/// by anchor_lang): a deterministic function of the seeds and the program id,
/// `None` when no bump gives a valid address or the seeds are too many or too
/// long.
#[verifier::external_body]
fn find_program_address(seeds: &Vec<Vec<u8>>, program_id: &[u8; 32]) -> (r: Option<([u8; 32], u8)>)
    ensures
        r matches Some((k, b)) ==> program_address_of(seeds.deep_view(), program_id@) == Some((k@, b)),
        r is None ==> program_address_of(seeds.deep_view(), program_id@) is None,
{
    let refs: Vec<&[u8]> = seeds.iter().map(|s| s.as_slice()).collect();
    let program = anchor_lang::prelude::Pubkey::new_from_array(*program_id);
    anchor_lang::prelude::Pubkey::try_find_program_address(&refs, &program).map(|(k, b)| (k.to_bytes(), b))
}

/// The eight little-endian bytes of `n`.
pub fn u64_le_bytes(n: u64) -> (r: Vec<u8>)
    ensures
        r@ == le_bytes(n as nat, 8),
{
    let mut out: Vec<u8> = Vec::new();
    let mut x: u64 = n;
    let mut i: usize = 0;
    while i < 8
        invariant
            0 <= i <= 8,
            out@ + le_bytes(x as nat, (8 - i) as nat) == le_bytes(n as nat, 8),
        decreases 8 - i,
    {
        let b = (x % 256) as u8;
        proof {
            let rest = le_bytes((x / 256) as nat, (8 - i - 1) as nat);
            assert(le_bytes(x as nat, (8 - i) as nat) == seq![b] + rest);
            assert(out@ + (seq![b] + rest) =~= out@.push(b) + rest);
        }
        out.push(b);
        x = x / 256;
        i = i + 1;
    }
    assert(out@ + le_bytes(x as nat, 0) =~= out@);
    out
}

/// The tag that starts the seeds of an entity of `kind`.
fn kind_tag(kind: AccountKind) -> (r: Vec<u8>)
    ensures
        r@ == seeds_spec(kind, 0)[0],
{
    let r = match kind {
        AccountKind::Platform => vec![112u8, 108u8, 97u8, 116u8, 102u8, 111u8, 114u8, 109u8],
        AccountKind::Game => vec![103u8, 97u8, 109u8, 101u8],
        AccountKind::Checkpoint => vec![99u8, 104u8, 101u8, 99u8, 107u8, 112u8, 111u8, 105u8, 110u8, 116u8],
    };
    assert(r@ =~= seeds_spec(kind, 0)[0]);
    r
}

/// The seeds that address an entity of `kind`.
pub fn address_seeds(kind: AccountKind, game_id: u64) -> (r: Vec<Vec<u8>>)
    ensures
        r.deep_view() == seeds_spec(kind, game_id),
{
    let tag = kind_tag(kind);
    let mut r: Vec<Vec<u8>> = Vec::new();
    r.push(tag);
    if kind != AccountKind::Platform {
        r.push(u64_le_bytes(game_id));
    }
    proof {
        assert(tag.deep_view() =~= tag@);
        assert(r.deep_view()[0] == tag@);
        if kind != AccountKind::Platform {
            assert(r.deep_view()[1] =~= le_bytes(game_id as nat, 8));
        }
    }
    assert(r.deep_view() =~= seeds_spec(kind, game_id));
    r
}

/// The address and bump of the entity of `kind` for match `game_id` under
/// `program_id`, if one exists.
pub fn address_of(kind: AccountKind, game_id: u64, program_id: &[u8; 32]) -> (r: Option<([u8; 32], u8)>)
    ensures
        r matches Some((k, b)) ==> program_address_of(seeds_spec(kind, game_id), program_id@) == Some((k@, b)),
        r is None ==> program_address_of(seeds_spec(kind, game_id), program_id@) is None,
{
    let seeds = address_seeds(kind, game_id);
    find_program_address(&seeds, program_id)
}

} // verus!
