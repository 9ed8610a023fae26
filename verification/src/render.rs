//! The render pipeline: draw every object onto the off-screen buffer, then
//! paint each map cell's background from the terrain, then let the caller
//! composite the finished buffer onto the display surface.

use vstd::prelude::*;
use crate::color;
use crate::color::Rgb;
use crate::console::Cell;
use crate::console::Offscreen;
use crate::console::cleared_cell;
use crate::game::Game;
use crate::object::Object;
use crate::tile::Tile;
use crate::world::GameMap;

verus! {

/// The background color terrain gives a cell: the dark wall color where
/// the tile blocks sight, the dark ground color otherwise.
pub open spec fn background_for(t: Tile) -> Rgb {
    if t.block_sight {
        color::spec_dark_wall()
    } else {
        color::spec_dark_ground()
    }
}

/// The cell at `(x, y)` after the objects are drawn in order onto a
/// surface whose cell there held `init`: the last object standing at
/// `(x, y)` leaves its glyph and color, the background is never touched,
/// and with no object there the cell keeps `init`.
pub open spec fn drawn_cell(init: Cell, objects: Seq<Object>, x: int, y: int) -> Cell
    decreases objects.len(),
{
    if objects.len() == 0 {
        init
    } else {
        let prev = drawn_cell(init, objects.drop_last(), x, y);
        let last = objects.last();
        if last.x == x && last.y == y {
            Cell { glyph: last.glyph, fg: last.color, bg: prev.bg }
        } else {
            prev
        }
    }
}

/// The surface's default foreground after the objects are drawn in order:
/// the color of the last object drawn, or the initial default if there
/// was none.
pub open spec fn drawn_default_fg(init: Rgb, objects: Seq<Object>) -> Rgb {
    if objects.len() == 0 {
        init
    } else {
        objects.last().color
    }
}

/// What the cell at `(x, y)` shows after a full render pass over a surface
/// whose cell there held `init`: the drawn glyph layer, with the background
/// repainted from the terrain wherever the map extends.
pub open spec fn rendered_cell(
    init: Cell,
    map: GameMap,
    objects: Seq<Object>,
    x: int,
    y: int,
) -> Cell {
    let drawn = drawn_cell(init, objects, x, y);
    if map.in_bounds(x, y) {
        Cell { glyph: drawn.glyph, fg: drawn.fg, bg: background_for(map.spec_tile_at(x, y)) }
    } else {
        drawn
    }
}

/// Draw every object in collection order, then set every map cell's
/// background from its tile. Later objects at the same cell overwrite
/// earlier ones; buffer cells beyond the map's extent keep their
/// background.
#[verifier::loop_isolation(false)]
pub fn render_all(con: &mut Offscreen, game: &Game, objects: &Vec<Object>)
    requires
        old(con).wf(),
        game.map.wf(),
        game.map.width <= old(con).width,
        game.map.height <= old(con).height,
        forall|k: int|
            0 <= k < objects@.len() ==> game.map.in_bounds(
                (#[trigger] objects@[k]).x as int,
                objects@[k].y as int,
            ),
    ensures
        final(con).wf(),
        final(con).width == old(con).width,
        final(con).height == old(con).height,
        final(con).default_bg == old(con).default_bg,
        final(con).default_fg == drawn_default_fg(old(con).default_fg, objects@),
        forall|x: int, y: int|
            final(con).in_bounds(x, y) ==> #[trigger] final(con).spec_cell(x, y) == rendered_cell(
                old(con).spec_cell(x, y),
                game.map,
                objects@,
                x,
                y,
            ),
{
    let mut i: usize = 0;
    while i < objects.len()
        invariant
            con.wf(),
            con.width == old(con).width,
            con.height == old(con).height,
            con.default_bg == old(con).default_bg,
            i <= objects@.len(),
            con.default_fg == drawn_default_fg(old(con).default_fg, objects@.take(i as int)),
            forall|x: int, y: int|
                con.in_bounds(x, y) ==> #[trigger] con.spec_cell(x, y) == drawn_cell(
                    old(con).spec_cell(x, y),
                    objects@.take(i as int),
                    x,
                    y,
                ),
        decreases objects@.len() - i,
    {
        let o = objects[i];
        o.draw(con);
        proof {
            assert(objects@.take(i as int + 1).drop_last() =~= objects@.take(i as int));
            assert(objects@.take(i as int + 1).last() == o);
        }
        i = i + 1;
    }
    proof {
        assert(objects@.take(objects@.len() as int) =~= objects@);
    }

    let mut x: i32 = 0;
    while x < game.map.width
        invariant
            con.wf(),
            con.width == old(con).width,
            con.height == old(con).height,
            con.default_bg == old(con).default_bg,
            con.default_fg == drawn_default_fg(old(con).default_fg, objects@),
            0 <= x <= game.map.width,
            forall|i: int, j: int|
                0 <= i < x && 0 <= j < game.map.height ==> #[trigger] con.spec_cell(i, j)
                    == rendered_cell(old(con).spec_cell(i, j), game.map, objects@, i, j),
            forall|i: int, j: int|
                con.in_bounds(i, j) && !(0 <= i < x && 0 <= j < game.map.height)
                    ==> #[trigger] con.spec_cell(i, j) == drawn_cell(
                    old(con).spec_cell(i, j),
                    objects@,
                    i,
                    j,
                ),
        decreases game.map.width - x,
    {
        let mut y: i32 = 0;
        while y < game.map.height
            invariant
                con.wf(),
                con.width == old(con).width,
                con.height == old(con).height,
                con.default_bg == old(con).default_bg,
                con.default_fg == drawn_default_fg(old(con).default_fg, objects@),
                0 <= x < game.map.width,
                0 <= y <= game.map.height,
                forall|i: int, j: int|
                    0 <= i < x && 0 <= j < game.map.height ==> #[trigger] con.spec_cell(i, j)
                        == rendered_cell(old(con).spec_cell(i, j), game.map, objects@, i, j),
                forall|j: int|
                    0 <= j < y ==> #[trigger] con.spec_cell(x as int, j) == rendered_cell(
                        old(con).spec_cell(x as int, j),
                        game.map,
                        objects@,
                        x as int,
                        j,
                    ),
                forall|i: int, j: int|
                    con.in_bounds(i, j) && !(0 <= i < x && 0 <= j < game.map.height) && !(i == x
                        as int && 0 <= j < y) ==> #[trigger] con.spec_cell(i, j) == drawn_cell(
                        old(con).spec_cell(i, j),
                        objects@,
                        i,
                        j,
                    ),
            decreases game.map.height - y,
        {
            let wall = game.map.blocks_sight(x, y);
            if wall {
                con.set_char_background(x, y, color::dark_wall());
            } else {
                con.set_char_background(x, y, color::dark_ground());
            }
            y = y + 1;
        }
        x = x + 1;
    }
}

/// One frame of the pipeline, in order: clear the buffer, draw every
/// object, paint the terrain backgrounds. The caller composites the
/// finished buffer onto the display surface and presents it afterwards,
/// so what is presented is always the frame just rendered.
pub fn render_frame(con: &mut Offscreen, game: &Game, objects: &Vec<Object>)
    requires
        old(con).wf(),
        game.map.wf(),
        game.map.width <= old(con).width,
        game.map.height <= old(con).height,
        forall|k: int|
            0 <= k < objects@.len() ==> game.map.in_bounds(
                (#[trigger] objects@[k]).x as int,
                objects@[k].y as int,
            ),
    ensures
        final(con).wf(),
        final(con).width == old(con).width,
        final(con).height == old(con).height,
        final(con).default_bg == old(con).default_bg,
        final(con).default_fg == drawn_default_fg(old(con).default_fg, objects@),
        forall|x: int, y: int|
            final(con).in_bounds(x, y) ==> #[trigger] final(con).spec_cell(x, y) == rendered_cell(
                cleared_cell(old(con).default_fg, old(con).default_bg),
                game.map,
                objects@,
                x,
                y,
            ),
{
    con.clear();
    render_all(con, game, objects);
}

/// Composite `src` onto `dst` at offset `(0, 0)`, full scale and opacity:
/// every destination cell that `src` covers takes the source cell, and the
/// rest keep their contents.
#[verifier::loop_isolation(false)]
pub fn blit(src: &Offscreen, dst: &mut Offscreen)
    requires
        src.wf(),
        old(dst).wf(),
        src.width <= old(dst).width,
        src.height <= old(dst).height,
    ensures
        final(dst).wf(),
        final(dst).width == old(dst).width,
        final(dst).height == old(dst).height,
        final(dst).default_fg == old(dst).default_fg,
        final(dst).default_bg == old(dst).default_bg,
        forall|x: int, y: int|
            final(dst).in_bounds(x, y) ==> #[trigger] final(dst).spec_cell(x, y) == (
            if src.in_bounds(x, y) {
                src.spec_cell(x, y)
            } else {
                old(dst).spec_cell(x, y)
            }),
{
    let mut x: i32 = 0;
    while x < src.width
        invariant
            dst.wf(),
            dst.width == old(dst).width,
            dst.height == old(dst).height,
            dst.default_fg == old(dst).default_fg,
            dst.default_bg == old(dst).default_bg,
            0 <= x <= src.width,
            forall|i: int, j: int|
                0 <= i < x && 0 <= j < src.height ==> #[trigger] dst.spec_cell(i, j)
                    == src.spec_cell(i, j),
            forall|i: int, j: int|
                dst.in_bounds(i, j) && !(0 <= i < x && 0 <= j < src.height)
                    ==> #[trigger] dst.spec_cell(i, j) == old(dst).spec_cell(i, j),
        decreases src.width - x,
    {
        let mut y: i32 = 0;
        while y < src.height
            invariant
                dst.wf(),
                dst.width == old(dst).width,
                dst.height == old(dst).height,
                dst.default_fg == old(dst).default_fg,
                dst.default_bg == old(dst).default_bg,
                0 <= x < src.width,
                0 <= y <= src.height,
                forall|i: int, j: int|
                    0 <= i < x && 0 <= j < src.height ==> #[trigger] dst.spec_cell(i, j)
                        == src.spec_cell(i, j),
                forall|j: int|
                    0 <= j < y ==> #[trigger] dst.spec_cell(x as int, j) == src.spec_cell(
                        x as int,
                        j,
                    ),
                forall|i: int, j: int|
                    dst.in_bounds(i, j) && !(0 <= i < x && 0 <= j < src.height) && !(i == x as int
                        && 0 <= j < y) ==> #[trigger] dst.spec_cell(i, j) == old(dst).spec_cell(
                        i,
                        j,
                    ),
            decreases src.height - y,
        {
            let cell = src.cells[x as usize][y as usize];
            dst.put_char_ex(x, y, cell.glyph, cell.fg, cell.bg);
            y = y + 1;
        }
        x = x + 1;
    }
}

} // verus!
