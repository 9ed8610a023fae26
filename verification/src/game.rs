//! The game session: the map it owns, the fixed session constants, and the
//! loop's state machine.

use vstd::prelude::*;
use crate::color;
use crate::input::Key;
use crate::input::spec_exit_requested;
use crate::object::Object;
use crate::world::GameMap;
use crate::world::make_map;

verus! {

pub const SCREEN_WIDTH: i32 = 80;

pub const SCREEN_HEIGHT: i32 = 50;

pub const MAP_WIDTH: i32 = 80;

pub const MAP_HEIGHT: i32 = 45;

/// Target frame rate hint handed to the display capability.
pub const LIMIT_FPS: i32 = 60;

/// Everything the session owns besides the live objects: here, the map.
pub struct Game {
    pub map: GameMap,
}

/// The game loop either keeps running or has terminated.
#[derive(Clone, Copy, Debug, PartialEq, Eq, Structural)]
pub enum LoopState {
    Running,
    Terminated,
}

/// The loop's transition: it terminates exactly when it already had, the
/// window was closed, or the last key asked to exit; otherwise it runs on.
pub open spec fn spec_loop_next(
    state: LoopState,
    window_closed: bool,
    exit_requested: bool,
) -> LoopState {
    if state is Terminated || window_closed || exit_requested {
        LoopState::Terminated
    } else {
        LoopState::Running
    }
}

/// Decide the loop state for the next iteration.
pub fn loop_next(state: LoopState, window_closed: bool, exit_requested: bool) -> (next: LoopState)
    ensures
        next == spec_loop_next(state, window_closed, exit_requested),
{
    match state {
        LoopState::Terminated => LoopState::Terminated,
        LoopState::Running => if window_closed || exit_requested {
            LoopState::Terminated
        } else {
            LoopState::Running
        },
    }
}

/// Law: an Escape key press terminates the loop within the iteration that
/// consumes it, whatever state the loop was in and whether or not the
/// window was closed.
pub proof fn lemma_escape_terminates(state: LoopState, window_closed: bool, key: Key)
    requires
        key.code is Escape,
    ensures
        spec_loop_next(state, window_closed, spec_exit_requested(key)) is Terminated,
{
}

/// Start-of-session game state: the map is all empty tiles at the fixed
/// session dimensions.
pub fn new_game() -> (g: Game)
    ensures
        g.map.wf(),
        g.map.width == MAP_WIDTH,
        g.map.height == MAP_HEIGHT,
        forall|x: int, y: int|
            g.map.in_bounds(x, y) ==> !(#[trigger] g.map.spec_tile_at(x, y)).blocked
                && !g.map.spec_tile_at(x, y).block_sight,
{
    Game { map: make_map(MAP_WIDTH, MAP_HEIGHT) }
}

/// Start-of-session objects: the player at the screen's center, then one
/// non-player character five cells to its left. Index 0 is the player.
pub fn initial_objects() -> (v: Vec<Object>)
    ensures
        v@.len() == 2,
        v@[0] == (Object { x: 40, y: 25, glyph: '@', color: color::spec_white() }),
        v@[1] == (Object { x: 35, y: 25, glyph: '@', color: color::spec_yellow() }),
{
    let player = Object::new(SCREEN_WIDTH / 2, SCREEN_HEIGHT / 2, '@', color::white());
    let npc = Object::new(SCREEN_WIDTH / 2 - 5, SCREEN_HEIGHT / 2, '@', color::yellow());
    let mut v: Vec<Object> = Vec::new();
    v.push(player);
    v.push(npc);
    v
}

} // verus!
