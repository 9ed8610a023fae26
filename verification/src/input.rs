//! The input dispatcher: one captured key event becomes one game action.

use vstd::prelude::*;
use crate::game::Game;
use crate::object::Object;
use crate::object::move_result;

verus! {

/// The key codes the dispatcher distinguishes; every other key the
/// display capability can report is `Other`.
#[derive(Clone, Copy, Debug, PartialEq, Eq, Structural)]
pub enum KeyCode {
    Enter,
    Escape,
    Up,
    Down,
    Left,
    Right,
    Other,
}

/// One captured key event: the key's code and whether Alt was held.
#[derive(Clone, Copy, Debug, PartialEq, Eq, Structural)]
pub struct Key {
    pub code: KeyCode,
    pub alt: bool,
}

/// What one key asks of the loop: whether to exit, and whether the
/// display should toggle fullscreen.
#[derive(Clone, Copy, Debug, PartialEq, Eq, Structural)]
pub struct KeyOutcome {
    pub exit: bool,
    pub toggle_fullscreen: bool,
}

/// A key asks the loop to exit exactly when it is Escape, whatever else
/// is held.
pub open spec fn spec_exit_requested(key: Key) -> bool {
    key.code is Escape
}

/// A key toggles fullscreen exactly when it is Enter with Alt held.
pub open spec fn spec_toggle_requested(key: Key) -> bool {
    key.code is Enter && key.alt
}

/// The movement delta a key stands for: the arrow keys move one cell,
/// every other key stands still.
pub open spec fn key_delta(key: Key) -> (int, int) {
    match key.code {
        KeyCode::Up => (0, -1),
        KeyCode::Down => (0, 1),
        KeyCode::Left => (-1, 0),
        KeyCode::Right => (1, 0),
        _ => (0, 0),
    }
}

/// Dispatch one key event: Alt+Enter asks for a fullscreen toggle, Escape
/// asks to exit, an arrow key moves the player one cell (subject to the
/// map's collision rule), and anything else is ignored. Exactly one event
/// is consumed per call; the player is the only entity touched.
pub fn handle_keys(key: Key, game: &Game, player: &mut Object) -> (r: KeyOutcome)
    requires
        game.map.wf(),
    ensures
        r.exit == spec_exit_requested(key),
        r.toggle_fullscreen == spec_toggle_requested(key),
        *final(player) == move_result(game.map, *old(player), key_delta(key).0, key_delta(key).1),
{
    match key.code {
        KeyCode::Enter => KeyOutcome { exit: false, toggle_fullscreen: key.alt },
        KeyCode::Escape => KeyOutcome { exit: true, toggle_fullscreen: false },
        KeyCode::Up => {
            player.move_by(0, -1, game);
            KeyOutcome { exit: false, toggle_fullscreen: false }
        },
        KeyCode::Down => {
            player.move_by(0, 1, game);
            KeyOutcome { exit: false, toggle_fullscreen: false }
        },
        KeyCode::Left => {
            player.move_by(-1, 0, game);
            KeyOutcome { exit: false, toggle_fullscreen: false }
        },
        KeyCode::Right => {
            player.move_by(1, 0, game);
            KeyOutcome { exit: false, toggle_fullscreen: false }
        },
        KeyCode::Other => KeyOutcome { exit: false, toggle_fullscreen: false },
    }
}

/// Dispatch one key event against the session's entity collection, whose
/// index 0 is the player by convention. Only the player is touched: every
/// other entity keeps its state, and none is added or removed.
pub fn handle_player_keys(key: Key, game: &Game, objects: &mut Vec<Object>) -> (r: KeyOutcome)
    requires
        game.map.wf(),
        old(objects)@.len() >= 1,
    ensures
        r.exit == spec_exit_requested(key),
        r.toggle_fullscreen == spec_toggle_requested(key),
        final(objects)@.len() == old(objects)@.len(),
        final(objects)@[0] == move_result(
            game.map,
            old(objects)@[0],
            key_delta(key).0,
            key_delta(key).1,
        ),
        forall|i: int|
            1 <= i < old(objects)@.len() ==> #[trigger] final(objects)@[i] == old(objects)@[i],
{
    let mut player = objects[0];
    let r = handle_keys(key, game, &mut player);
    objects.set(0, player);
    r
}

} // verus!
