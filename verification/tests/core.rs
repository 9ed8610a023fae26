use rogue_core::color::{black, dark_ground, dark_wall, white, yellow};
use rogue_core::console::{Cell, Offscreen};
use rogue_core::game::{initial_objects, loop_next, new_game, Game, LoopState};
use rogue_core::input::{handle_keys, handle_player_keys, Key, KeyCode};
use rogue_core::object::Object;
use rogue_core::render::{blit, render_all, render_frame};
use rogue_core::tile::Tile;
use rogue_core::world::{make_map, MapError};

fn key(code: KeyCode) -> Key {
    Key { code, alt: false }
}

#[test]
fn empty_tile_blocks_nothing() {
    let t = Tile::empty();
    assert_eq!(t.blocked, false);
    assert_eq!(t.block_sight, false);
}

#[test]
fn wall_tile_blocks_movement_and_sight() {
    let t = Tile::wall();
    assert_eq!(t.blocked, true);
    assert_eq!(t.block_sight, true);
}

#[test]
fn fresh_map_has_exact_dimensions_and_only_empty_tiles() {
    let m = make_map(7, 5);
    assert_eq!(m.width, 7);
    assert_eq!(m.height, 5);
    assert_eq!(m.tiles.len(), 7);
    for column in &m.tiles {
        assert_eq!(column.len(), 5);
    }
    for x in 0..7 {
        for y in 0..5 {
            assert_eq!(m.tile_at(x, y), Ok(Tile::empty()));
            assert!(!m.is_blocked(x, y));
            assert!(!m.blocks_sight(x, y));
        }
    }
}

#[test]
fn zero_sized_map_is_allowed() {
    let m = make_map(0, 0);
    assert_eq!(m.width, 0);
    assert_eq!(m.height, 0);
    assert_eq!(m.tile_at(0, 0), Err(MapError::OutOfBounds));
}

#[test]
fn tile_queries_outside_the_grid_report_out_of_bounds() {
    let mut m = make_map(3, 2);
    assert_eq!(m.tile_at(-1, 0), Err(MapError::OutOfBounds));
    assert_eq!(m.tile_at(0, -1), Err(MapError::OutOfBounds));
    assert_eq!(m.tile_at(3, 0), Err(MapError::OutOfBounds));
    assert_eq!(m.tile_at(0, 2), Err(MapError::OutOfBounds));
    assert_eq!(m.set_tile(3, 0, Tile::wall()), Err(MapError::OutOfBounds));
    // a refused placement changes nothing
    for x in 0..3 {
        for y in 0..2 {
            assert_eq!(m.tile_at(x, y), Ok(Tile::empty()));
        }
    }
}

#[test]
fn set_tile_replaces_one_cell_only() {
    let mut m = make_map(4, 4);
    assert_eq!(m.set_tile(2, 3, Tile::wall()), Ok(()));
    assert_eq!(m.tile_at(2, 3), Ok(Tile::wall()));
    for x in 0..4 {
        for y in 0..4 {
            if (x, y) != (2, 3) {
                assert_eq!(m.tile_at(x, y), Ok(Tile::empty()));
            }
        }
    }
}

#[test]
fn move_into_blocked_cell_is_a_no_op() {
    let mut m = make_map(5, 5);
    m.set_tile(3, 2, Tile::wall()).unwrap();
    let game = Game { map: m };
    let mut o = Object::new(2, 2, '@', white());
    o.move_by(1, 0, &game);
    assert_eq!((o.x, o.y), (2, 2));
}

#[test]
fn move_into_unblocked_cell_lands_exactly_there() {
    let game = Game { map: make_map(5, 5) };
    let mut o = Object::new(2, 2, '@', white());
    let other = Object::new(4, 4, '@', yellow());
    o.move_by(1, -1, &game);
    assert_eq!((o.x, o.y), (3, 1));
    assert_eq!(o.glyph, '@');
    assert_eq!(o.color, white());
    // nothing else changed
    assert_eq!(other, Object::new(4, 4, '@', yellow()));
}

#[test]
fn diagonal_move_needs_only_the_target_unblocked() {
    let mut m = make_map(5, 5);
    m.set_tile(2, 1, Tile::wall()).unwrap();
    m.set_tile(1, 2, Tile::wall()).unwrap();
    let game = Game { map: m };
    let mut o = Object::new(1, 1, '@', white());
    o.move_by(1, 1, &game);
    assert_eq!((o.x, o.y), (2, 2));
}

#[test]
fn move_off_the_grid_neither_wraps_nor_panics() {
    let game = Game { map: make_map(5, 5) };
    let mut o = Object::new(0, 0, '@', white());
    o.move_by(-1, 0, &game);
    assert_eq!((o.x, o.y), (0, 0));
    o.move_by(0, -1, &game);
    assert_eq!((o.x, o.y), (0, 0));
    let mut far = Object::new(4, 4, '@', white());
    far.move_by(1, 0, &game);
    assert_eq!((far.x, far.y), (4, 4));
}

#[test]
fn move_delta_overflow_is_a_no_op() {
    let game = Game { map: make_map(5, 5) };
    let mut o = Object::new(2, 2, '@', white());
    o.move_by(i32::MAX, i32::MAX, &game);
    assert_eq!((o.x, o.y), (2, 2));
    o.move_by(i32::MIN, 0, &game);
    assert_eq!((o.x, o.y), (2, 2));
}

#[test]
fn session_starts_with_player_then_npc() {
    let objects = initial_objects();
    assert_eq!(objects.len(), 2);
    assert_eq!(objects[0], Object::new(40, 25, '@', white()));
    assert_eq!(objects[1], Object::new(35, 25, '@', yellow()));
}

#[test]
fn session_map_is_eighty_by_forty_five_and_empty() {
    let g = new_game();
    assert_eq!(g.map.width, 80);
    assert_eq!(g.map.height, 45);
    for x in 0..80 {
        for y in 0..45 {
            assert_eq!(g.map.tile_at(x, y), Ok(Tile::empty()));
        }
    }
}

#[test]
fn up_up_left_from_center_reaches_39_23() {
    let game = new_game();
    let mut objects = initial_objects();
    let player = &mut objects[0];
    assert_eq!((player.x, player.y), (40, 25));
    handle_keys(key(KeyCode::Up), &game, player);
    handle_keys(key(KeyCode::Up), &game, player);
    handle_keys(key(KeyCode::Left), &game, player);
    assert_eq!((player.x, player.y), (39, 23));
}

#[test]
fn wall_on_the_left_blocks_the_left_key() {
    let mut game = new_game();
    game.map.set_tile(39, 23, Tile::wall()).unwrap();
    let mut player = Object::new(40, 23, '@', white());
    let out = handle_keys(key(KeyCode::Left), &game, &mut player);
    assert_eq!((player.x, player.y), (40, 23));
    assert!(!out.exit);
}

#[test]
fn escape_terminates_from_any_state_within_one_iteration() {
    let game = new_game();
    let mut player = Object::new(40, 25, '@', white());
    let out = handle_keys(key(KeyCode::Escape), &game, &mut player);
    assert!(out.exit);
    assert!(!out.toggle_fullscreen);
    assert_eq!((player.x, player.y), (40, 25));
    assert_eq!(loop_next(LoopState::Running, false, out.exit), LoopState::Terminated);
    assert_eq!(loop_next(LoopState::Terminated, false, out.exit), LoopState::Terminated);
}

#[test]
fn window_close_terminates_the_loop() {
    assert_eq!(loop_next(LoopState::Running, true, false), LoopState::Terminated);
    assert_eq!(loop_next(LoopState::Running, false, false), LoopState::Running);
    assert_eq!(loop_next(LoopState::Terminated, false, false), LoopState::Terminated);
}

#[test]
fn alt_enter_asks_for_fullscreen_and_plain_enter_does_not() {
    let game = new_game();
    let mut player = Object::new(40, 25, '@', white());
    let alt_enter = handle_keys(Key { code: KeyCode::Enter, alt: true }, &game, &mut player);
    assert!(alt_enter.toggle_fullscreen);
    assert!(!alt_enter.exit);
    assert_eq!((player.x, player.y), (40, 25));
    let plain_enter = handle_keys(Key { code: KeyCode::Enter, alt: false }, &game, &mut player);
    assert!(!plain_enter.toggle_fullscreen);
    assert!(!plain_enter.exit);
    let other = handle_keys(key(KeyCode::Other), &game, &mut player);
    assert!(!other.exit);
    assert!(!other.toggle_fullscreen);
    assert_eq!((player.x, player.y), (40, 25));
}

#[test]
fn arrow_keys_move_one_cell_each_way() {
    let game = new_game();
    let mut player = Object::new(10, 10, '@', white());
    handle_keys(key(KeyCode::Down), &game, &mut player);
    assert_eq!((player.x, player.y), (10, 11));
    handle_keys(key(KeyCode::Right), &game, &mut player);
    assert_eq!((player.x, player.y), (11, 11));
    handle_keys(key(KeyCode::Up), &game, &mut player);
    assert_eq!((player.x, player.y), (11, 10));
    handle_keys(key(KeyCode::Left), &game, &mut player);
    assert_eq!((player.x, player.y), (10, 10));
}

#[test]
fn only_the_player_moves_in_the_collection() {
    let game = new_game();
    let mut objects = initial_objects();
    let npc_before = objects[1];
    let out = handle_player_keys(key(KeyCode::Right), &game, &mut objects);
    assert!(!out.exit);
    assert_eq!((objects[0].x, objects[0].y), (41, 25));
    assert_eq!(objects.len(), 2);
    assert_eq!(objects[1], npc_before);
}

#[test]
fn fresh_console_is_blank_white_on_black() {
    let con = Offscreen::new(3, 2);
    assert_eq!(con.width, 3);
    assert_eq!(con.height, 2);
    assert_eq!(con.default_fg, white());
    assert_eq!(con.default_bg, black());
    for column in &con.cells {
        for cell in column {
            assert_eq!(*cell, Cell { glyph: ' ', fg: white(), bg: black() });
        }
    }
}

#[test]
fn put_char_uses_default_foreground_and_keeps_background() {
    let mut con = Offscreen::new(3, 3);
    con.set_char_background(1, 1, dark_ground());
    con.set_default_foreground(yellow());
    con.put_char(1, 1, '@');
    assert_eq!(con.cells[1][1], Cell { glyph: '@', fg: yellow(), bg: dark_ground() });
    assert_eq!(con.cells[0][0], Cell { glyph: ' ', fg: white(), bg: black() });
}

#[test]
fn clear_resets_every_cell_to_the_current_defaults() {
    let mut con = Offscreen::new(2, 2);
    con.set_default_foreground(yellow());
    con.put_char(0, 0, '@');
    con.set_char_background(1, 1, dark_wall());
    con.clear();
    for column in &con.cells {
        for cell in column {
            assert_eq!(*cell, Cell { glyph: ' ', fg: yellow(), bg: black() });
        }
    }
}

#[test]
fn object_draw_writes_its_glyph_in_its_color() {
    let mut con = Offscreen::new(4, 4);
    let o = Object::new(2, 3, '@', yellow());
    o.draw(&mut con);
    assert_eq!(con.cells[2][3], Cell { glyph: '@', fg: yellow(), bg: black() });
    assert_eq!(con.default_fg, yellow());
    assert_eq!(con.cells[2][2], Cell { glyph: ' ', fg: white(), bg: black() });
}

#[test]
fn render_all_paints_terrain_and_draws_objects() {
    let mut m = make_map(3, 2);
    m.set_tile(1, 0, Tile::wall()).unwrap();
    let game = Game { map: m };
    let objects = vec![Object::new(0, 1, '@', white()), Object::new(2, 1, 'k', yellow())];
    let mut con = Offscreen::new(3, 2);
    render_all(&mut con, &game, &objects);
    // terrain backgrounds: dark wall where sight is blocked, dark ground elsewhere
    assert_eq!(con.cells[1][0].bg, dark_wall());
    assert_eq!(con.cells[0][0].bg, dark_ground());
    assert_eq!(con.cells[2][1].bg, dark_ground());
    // objects: glyph and foreground at their cells, backgrounds from terrain
    assert_eq!(con.cells[0][1], Cell { glyph: '@', fg: white(), bg: dark_ground() });
    assert_eq!(con.cells[2][1], Cell { glyph: 'k', fg: yellow(), bg: dark_ground() });
    // untouched glyph layer elsewhere
    assert_eq!(con.cells[1][1].glyph, ' ');
}

#[test]
fn later_objects_overwrite_earlier_ones_at_the_same_cell() {
    let game = Game { map: make_map(2, 2) };
    let objects = vec![Object::new(1, 1, 'a', white()), Object::new(1, 1, 'b', yellow())];
    let mut con = Offscreen::new(2, 2);
    render_all(&mut con, &game, &objects);
    assert_eq!(con.cells[1][1].glyph, 'b');
    assert_eq!(con.cells[1][1].fg, yellow());
    assert_eq!(con.default_fg, yellow());
}

#[test]
fn buffer_rows_beyond_the_map_keep_their_background() {
    // the session buffer is taller than the map; rows below it stay cleared
    let game = Game { map: make_map(2, 2) };
    let objects: Vec<Object> = Vec::new();
    let mut con = Offscreen::new(2, 4);
    render_all(&mut con, &game, &objects);
    assert_eq!(con.cells[0][1].bg, dark_ground());
    assert_eq!(con.cells[0][2].bg, black());
    assert_eq!(con.cells[1][3].bg, black());
}

#[test]
fn render_frame_clears_before_drawing() {
    let game = Game { map: make_map(2, 2) };
    let mut con = Offscreen::new(2, 2);
    // stale glyph from an earlier frame
    con.put_char(0, 0, 'x');
    let objects = vec![Object::new(1, 0, '@', white())];
    render_frame(&mut con, &game, &objects);
    assert_eq!(con.cells[0][0].glyph, ' ');
    assert_eq!(con.cells[1][0], Cell { glyph: '@', fg: white(), bg: dark_ground() });
}

#[test]
fn blit_copies_the_source_and_leaves_the_rest() {
    let mut src = Offscreen::new(2, 2);
    src.set_default_foreground(yellow());
    src.put_char(0, 0, 'z');
    src.set_char_background(1, 1, dark_wall());
    let mut dst = Offscreen::new(3, 3);
    dst.put_char(2, 2, 'q');
    blit(&src, &mut dst);
    assert_eq!(dst.cells[0][0], Cell { glyph: 'z', fg: yellow(), bg: black() });
    assert_eq!(dst.cells[1][1], Cell { glyph: ' ', fg: white(), bg: dark_wall() });
    // outside the source's extent the destination keeps its contents
    assert_eq!(dst.cells[2][2].glyph, 'q');
}

#[test]
fn put_char_ex_sets_the_whole_cell() {
    let mut con = Offscreen::new(2, 2);
    con.put_char_ex(0, 1, '#', yellow(), dark_wall());
    assert_eq!(con.cells[0][1], Cell { glyph: '#', fg: yellow(), bg: dark_wall() });
    assert_eq!(con.default_fg, white());
}
