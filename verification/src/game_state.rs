//! The states of the game and the few rules that move between them.

use vstd::prelude::*;

verus! {

/// What the game is doing.
#[derive(Clone, Copy, Debug, PartialEq, Eq, Hash, Structural)]
pub enum GameState {
    Loading,
    Playing,
    Dialogue,
}

impl Default for GameState {
    fn default() -> (s: GameState)
        ensures
            s == GameState::Loading,
    {
        GameState::Loading
    }
}

/// Where the player is while playing.
#[derive(Clone, Copy, Debug, PartialEq, Eq, Hash, Structural)]
pub enum Scene {
    TownOfEndgame,
    TeamMarathon,
}

impl Default for Scene {
    fn default() -> (s: Scene)
        ensures
            s == Scene::TownOfEndgame,
    {
        Scene::TownOfEndgame
    }
}

/// The state to go to when the escape key is pressed: out of a dialogue
/// back to playing; in any other state the key does nothing.
pub fn after_escape(state: GameState, escape_pressed: bool) -> (next: Option<GameState>)
    ensures
        next == if escape_pressed && state == GameState::Dialogue {
            Some(GameState::Playing)
        } else {
            None::<GameState>
        },
{
    if !escape_pressed {
        return None;
    }
    match state {
        GameState::Dialogue => Some(GameState::Playing),
        _ => None,
    }
}

/// Whether loading has just finished: every asset is there and this was not
/// yet noted.
pub fn loading_finished(already_loaded: bool, assets_loaded: &Vec<bool>) -> (done: bool)
    ensures
        done == (!already_loaded && forall|i: int|
            0 <= i < assets_loaded@.len() ==> assets_loaded@[i]),
{
    if already_loaded {
        return false;
    }
    let mut i: usize = 0;
    while i < assets_loaded.len()
        invariant
            i <= assets_loaded@.len(),
            forall|k: int| 0 <= k < i ==> assets_loaded@[k],
        decreases assets_loaded@.len() - i,
    {
        if !assets_loaded[i] {
            return false;
        }
        i += 1;
    }
    true
}

/// Whether a limit on the run has been reached: as many frames as asked for
/// were counted, or as much time has passed.
pub open spec fn limit_reached(
    frame_count: u64,
    frames: Option<u64>,
    elapsed_ms: u64,
    limit_ms: Option<u64>,
) -> bool {
    (frames is Some && frame_count >= frames->0) || (limit_ms is Some && elapsed_ms >= limit_ms->0)
}

/// Whether the run is to end now.
pub fn should_exit(frame_count: u64, frames: Option<u64>, elapsed_ms: u64, limit_ms: Option<u64>)
    -> (exit: bool)
    ensures
        exit == limit_reached(frame_count, frames, elapsed_ms, limit_ms),
{
    let by_frames = match frames {
        Some(f) => frame_count >= f,
        None => false,
    };
    let by_time = match limit_ms {
        Some(l) => elapsed_ms >= l,
        None => false,
    };
    by_frames || by_time
}

/// The frame count after one more frame; it stops at `u64::MAX`.
pub fn count_frame(frame_count: u64) -> (next: u64)
    ensures
        next == if frame_count == u64::MAX {
            u64::MAX
        } else {
            (frame_count + 1) as u64
        },
{
    if frame_count == u64::MAX {
        u64::MAX
    } else {
        frame_count + 1
    }
}

} // verus!
