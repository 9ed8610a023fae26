//! A positioned, drawable, movable actor, and its movement rule.

use vstd::prelude::*;
use crate::color::Rgb;
use crate::console::Cell;
use crate::console::Offscreen;
use crate::game::Game;
use crate::world::GameMap;

verus! {

/// A game object: a position on the map, the glyph that draws it, and the
/// glyph's color.
#[derive(Clone, Copy, Debug, PartialEq, Eq, Structural)]
pub struct Object {
    pub x: i32,
    pub y: i32,
    pub glyph: char,
    pub color: Rgb,
}

/// Where an object standing at `before` ends up after asking to move by
/// `(dx, dy)`: at the target cell if that cell lies on the map and is not
/// blocked, and exactly where it was otherwise.
pub open spec fn move_result(map: GameMap, before: Object, dx: int, dy: int) -> Object {
    let tx = before.x + dx;
    let ty = before.y + dy;
    if map.in_bounds(tx, ty) && !map.spec_tile_at(tx, ty).blocked {
        Object { x: tx as i32, y: ty as i32, glyph: before.glyph, color: before.color }
    } else {
        before
    }
}

/// Law: movement into a blocked target cell is a no-op; the mover keeps
/// its position (and everything else) unchanged.
pub proof fn lemma_move_blocked(map: GameMap, before: Object, dx: int, dy: int)
    requires
        map.spec_tile_at(before.x + dx, before.y + dy).blocked,
    ensures
        move_result(map, before, dx, dy) == before,
{
}

/// Law: movement into an unblocked cell on the map lands exactly at
/// `(x + dx, y + dy)`, and changes nothing but the position.
pub proof fn lemma_move_unblocked(map: GameMap, before: Object, dx: int, dy: int)
    requires
        map.in_bounds(before.x + dx, before.y + dy),
        !map.spec_tile_at(before.x + dx, before.y + dy).blocked,
    ensures
        move_result(map, before, dx, dy).x == before.x + dx,
        move_result(map, before, dx, dy).y == before.y + dy,
        move_result(map, before, dx, dy).glyph == before.glyph,
        move_result(map, before, dx, dy).color == before.color,
{
}

/// Law: a target outside the grid leaves the mover exactly where it was:
/// no wrap-around, no partial update.
pub proof fn lemma_move_out_of_bounds(map: GameMap, before: Object, dx: int, dy: int)
    requires
        !map.in_bounds(before.x + dx, before.y + dy),
    ensures
        move_result(map, before, dx, dy) == before,
{
}

impl Object {
    /// Pure construction; placing the object legally is the caller's duty.
    pub fn new(x: i32, y: i32, glyph: char, color: Rgb) -> (o: Object)
        ensures
            o == (Object { x, y, glyph, color }),
    {
        Object { x, y, glyph, color }
    }

    /// Move by the given amount if the target cell lies on the map and is
    /// not blocked. A blocked or out-of-bounds target leaves the position
    /// unchanged: no wrap, no error, a silent no-op. Both coordinates
    /// change together or not at all.
    pub fn move_by(&mut self, dx: i32, dy: i32, game: &Game)
        requires
            game.map.wf(),
        ensures
            *final(self) == move_result(game.map, *old(self), dx as int, dy as int),
    {
        let tx: i64 = self.x as i64 + dx as i64;
        let ty: i64 = self.y as i64 + dy as i64;
        if 0 <= tx && tx < game.map.width as i64 && 0 <= ty && ty < game.map.height as i64 {
            if !game.map.is_blocked(tx as i32, ty as i32) {
                self.x = tx as i32;
                self.y = ty as i32;
            }
        }
    }

    /// Set the surface's foreground color to this object's color, then
    /// write its glyph at its position, leaving the cell's background
    /// untouched. Every other cell keeps its contents.
    pub fn draw(&self, con: &mut Offscreen)
        requires
            old(con).wf(),
            old(con).in_bounds(self.x as int, self.y as int),
        ensures
            final(con).wf(),
            final(con).width == old(con).width,
            final(con).height == old(con).height,
            final(con).default_fg == self.color,
            final(con).default_bg == old(con).default_bg,
            final(con).spec_cell(self.x as int, self.y as int) == (Cell {
                glyph: self.glyph,
                fg: self.color,
                bg: old(con).spec_cell(self.x as int, self.y as int).bg,
            }),
            forall|i: int, j: int|
                old(con).in_bounds(i, j) && !(i == self.x as int && j == self.y as int)
                    ==> #[trigger] final(con).spec_cell(i, j) == old(con).spec_cell(i, j),
    {
        con.set_default_foreground(self.color);
        con.put_char(self.x, self.y, self.glyph);
    }
}

} // verus!
