//! The host's latest progress snapshot of a running match.

use vstd::prelude::*;
use crate::bytes::bytes_eq;
use crate::game::{GameState, GameStatus, SettlementError};
use crate::registry::PlatformConfig;

verus! {

/// Opaque bit-packed snapshot of a match at some round, written by the host.
#[derive(Clone, Copy, Debug, PartialEq, Eq, Structural)]
pub struct GameCheckpoint {
    pub game_id: u64,
    pub round: u64,
    pub players_packed: u128,
    pub properties_packed: u128,
    pub meta_packed: u128,
}

/// Creates or overwrites the checkpoint of a started match. Only the host
/// authority may write; the round and payloads are stored as given.
pub fn write_checkpoint(
    platform: &PlatformConfig,
    gm: &[u8; 32],
    game: &GameState,
    checkpoint: &mut Option<GameCheckpoint>,
    round: u64,
    players_packed: u128,
    properties_packed: u128,
    meta_packed: u128,
) -> (r: Result<(), SettlementError>)
    ensures
        platform.gm_signer != *gm ==> r == Err::<(), SettlementError>(SettlementError::NotGM),
        platform.gm_signer == *gm && game.status != GameStatus::Started
            ==> r == Err::<(), SettlementError>(SettlementError::InvalidGameStatus),
        r is Err ==> *final(checkpoint) == *old(checkpoint),
        platform.gm_signer == *gm && game.status == GameStatus::Started ==> {
            &&& r is Ok
            &&& *final(checkpoint) == Some(GameCheckpoint {
                game_id: game.game_id,
                round,
                players_packed,
                properties_packed,
                meta_packed,
            })
        },
{
    if !bytes_eq(&platform.gm_signer, gm) {
        return Err(SettlementError::NotGM);
    }
    if game.status != GameStatus::Started {
        return Err(SettlementError::InvalidGameStatus);
    }
    *checkpoint = Some(GameCheckpoint {
        game_id: game.game_id,
        round,
        players_packed,
        properties_packed,
        meta_packed,
    });
    Ok(())
}

} // verus!
