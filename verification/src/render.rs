//! The renderer: turns the tile map into a grid of glyphs and substitutes a
//! highlighted player glyph at the player's coordinates. The glyph grids are
//! plain values; writing them to the terminal, with its cursor-positioning
//! and color escapes, happens outside the library.

use vstd::prelude::*;
use crate::tilemap::{TileMap, Tile, MAP_WIDTH, MAP_HEIGHT};
use crate::Vector2;

verus! {

/// The glyph that marks the player's cell.
pub const PLAYER_GLYPH: char = '@';

/// The glyph that the encounter transition paints over visited cells.
pub const FLASH_GLYPH: char = '*';

/// The glyph each tile is drawn as.
pub open spec fn tile_glyph(t: Tile) -> char {
    match t {
        Tile::Floor => ' ',
        Tile::Wall => '\u{2588}',
        Tile::Water => '~',
    }
}

/// A glyph grid with exactly the map's dimensions.
pub open spec fn grid_wf(g: Seq<Vec<char>>) -> bool {
    &&& g.len() == MAP_HEIGHT
    &&& forall|y: int| 0 <= y < MAP_HEIGHT ==> #[trigger] g[y]@.len() == MAP_WIDTH
}

/// The glyphs of the map's tiles, without the player.
pub fn glyphs_of(m: &TileMap) -> (g: Vec<Vec<char>>)
    requires
        m.wf(),
    ensures
        grid_wf(g@),
        forall|x: int, y: int|
            0 <= x < MAP_WIDTH && 0 <= y < MAP_HEIGHT ==> #[trigger] g@[y]@[x] == tile_glyph(
                m.tile_at(x, y),
            ),
{
    let mut g: Vec<Vec<char>> = Vec::new();
    let mut y: usize = 0;
    while y < MAP_HEIGHT
        invariant
            y <= MAP_HEIGHT,
            m.wf(),
            g@.len() == y,
            forall|r: int| 0 <= r < y ==> #[trigger] g@[r]@.len() == MAP_WIDTH,
            forall|c: int, r: int|
                0 <= c < MAP_WIDTH && 0 <= r < y ==> #[trigger] g@[r]@[c] == tile_glyph(
                    m.tile_at(c, r),
                ),
        decreases MAP_HEIGHT - y,
    {
        let mut row: Vec<char> = Vec::new();
        let mut x: usize = 0;
        while x < MAP_WIDTH
            invariant
                x <= MAP_WIDTH,
                y < MAP_HEIGHT,
                m.wf(),
                row@.len() == x,
                forall|c: int|
                    0 <= c < x ==> #[trigger] row@[c] == tile_glyph(m.tile_at(c, y as int)),
            decreases MAP_WIDTH - x,
        {
            let t = m.get(x, y);
            let glyph = match t {
                Tile::Floor => ' ',
                Tile::Wall => '\u{2588}',
                Tile::Water => '~',
            };
            row.push(glyph);
            x = x + 1;
        }
        g.push(row);
        y = y + 1;
    }
    g
}

/// One frame of output: the glyph grid with the player glyph substituted at
/// the player's coordinates.
pub fn render_frame(g: &Vec<Vec<char>>, player: Vector2) -> (out: Vec<Vec<char>>)
    requires
        grid_wf(g@),
        0 <= player.x < MAP_WIDTH,
        0 <= player.y < MAP_HEIGHT,
    ensures
        grid_wf(out@),
        forall|x: int, y: int|
            0 <= x < MAP_WIDTH && 0 <= y < MAP_HEIGHT ==> #[trigger] out@[y]@[x] == (
            if x == player.x && y == player.y {
                PLAYER_GLYPH
            } else {
                g@[y]@[x]
            }),
{
    let mut out: Vec<Vec<char>> = Vec::new();
    let mut y: usize = 0;
    while y < MAP_HEIGHT
        invariant
            y <= MAP_HEIGHT,
            grid_wf(g@),
            0 <= player.x < MAP_WIDTH,
            0 <= player.y < MAP_HEIGHT,
            out@.len() == y,
            forall|r: int| 0 <= r < y ==> #[trigger] out@[r]@.len() == MAP_WIDTH,
            forall|c: int, r: int|
                0 <= c < MAP_WIDTH && 0 <= r < y ==> #[trigger] out@[r]@[c] == (
                if c == player.x && r == player.y {
                    PLAYER_GLYPH
                } else {
                    g@[r]@[c]
                }),
        decreases MAP_HEIGHT - y,
    {
        let mut row: Vec<char> = Vec::new();
        let mut x: usize = 0;
        while x < MAP_WIDTH
            invariant
                x <= MAP_WIDTH,
                y < MAP_HEIGHT,
                grid_wf(g@),
                0 <= player.x < MAP_WIDTH,
                0 <= player.y < MAP_HEIGHT,
                row@.len() == x,
                forall|c: int|
                    0 <= c < x ==> #[trigger] row@[c] == (
                    if c == player.x && y == player.y {
                        PLAYER_GLYPH
                    } else {
                        g@[y as int]@[c]
                    }),
            decreases MAP_WIDTH - x,
        {
            let glyph = if x == player.x as usize && y == player.y as usize {
                PLAYER_GLYPH
            } else {
                g[y][x]
            };
            row.push(glyph);
            x = x + 1;
        }
        out.push(row);
        y = y + 1;
    }
    out
}

/// An exact copy of a glyph grid.
pub fn clone_grid(g: &Vec<Vec<char>>) -> (r: Vec<Vec<char>>)
    requires
        grid_wf(g@),
    ensures
        grid_wf(r@),
        forall|x: int, y: int|
            0 <= x < MAP_WIDTH && 0 <= y < MAP_HEIGHT ==> #[trigger] r@[y]@[x] == g@[y]@[x],
{
    let mut r: Vec<Vec<char>> = Vec::new();
    let mut y: usize = 0;
    while y < MAP_HEIGHT
        invariant
            y <= MAP_HEIGHT,
            grid_wf(g@),
            r@.len() == y,
            forall|i: int| 0 <= i < y ==> #[trigger] r@[i]@.len() == MAP_WIDTH,
            forall|c: int, i: int|
                0 <= c < MAP_WIDTH && 0 <= i < y ==> #[trigger] r@[i]@[c] == g@[i]@[c],
        decreases MAP_HEIGHT - y,
    {
        let mut row: Vec<char> = Vec::new();
        let mut x: usize = 0;
        while x < MAP_WIDTH
            invariant
                x <= MAP_WIDTH,
                y < MAP_HEIGHT,
                grid_wf(g@),
                row@.len() == x,
                forall|c: int| 0 <= c < x ==> #[trigger] row@[c] == g@[y as int]@[c],
            decreases MAP_WIDTH - x,
        {
            row.push(g[y][x]);
            x = x + 1;
        }
        r.push(row);
        y = y + 1;
    }
    r
}

/// A grid entirely filled with the flash glyph: the transition's final frame.
pub fn flash_grid() -> (r: Vec<Vec<char>>)
    ensures
        grid_wf(r@),
        forall|x: int, y: int|
            0 <= x < MAP_WIDTH && 0 <= y < MAP_HEIGHT ==> #[trigger] r@[y]@[x] == FLASH_GLYPH,
{
    let mut r: Vec<Vec<char>> = Vec::new();
    let mut y: usize = 0;
    while y < MAP_HEIGHT
        invariant
            y <= MAP_HEIGHT,
            r@.len() == y,
            forall|i: int| 0 <= i < y ==> #[trigger] r@[i]@.len() == MAP_WIDTH,
            forall|c: int, i: int|
                0 <= c < MAP_WIDTH && 0 <= i < y ==> #[trigger] r@[i]@[c] == FLASH_GLYPH,
        decreases MAP_HEIGHT - y,
    {
        let mut row: Vec<char> = Vec::new();
        let mut x: usize = 0;
        while x < MAP_WIDTH
            invariant
                x <= MAP_WIDTH,
                row@.len() == x,
                forall|c: int| 0 <= c < x ==> #[trigger] row@[c] == FLASH_GLYPH,
            decreases MAP_WIDTH - x,
        {
            row.push(FLASH_GLYPH);
            x = x + 1;
        }
        r.push(row);
        y = y + 1;
    }
    r
}

/// In a rendered frame the player glyph appears at the player's coordinates
/// and nowhere else, because no tile is ever drawn as the player glyph.
pub proof fn lemma_player_glyph_unique(m: TileMap, player: Vector2, out: Seq<Vec<char>>)
    requires
        m.wf(),
        0 <= player.x < MAP_WIDTH,
        0 <= player.y < MAP_HEIGHT,
        forall|x: int, y: int|
            0 <= x < MAP_WIDTH && 0 <= y < MAP_HEIGHT ==> #[trigger] out[y]@[x] == (
            if x == player.x && y == player.y {
                PLAYER_GLYPH
            } else {
                tile_glyph(m.tile_at(x, y))
            }),
    ensures
        forall|x: int, y: int|
            0 <= x < MAP_WIDTH && 0 <= y < MAP_HEIGHT ==> (#[trigger] out[y]@[x] == PLAYER_GLYPH
                <==> (x == player.x && y == player.y)),
{
    assert forall|x: int, y: int|
        0 <= x < MAP_WIDTH && 0 <= y < MAP_HEIGHT implies (#[trigger] out[y]@[x] == PLAYER_GLYPH
        <==> (x == player.x && y == player.y)) by {
        assert(tile_glyph(m.tile_at(x, y)) != PLAYER_GLYPH);
    }
}

} // verus!
