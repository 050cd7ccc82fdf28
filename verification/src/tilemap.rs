//! The tile map: a fixed-size grid of tiles with border walls and, in the
//! randomly generated map, scattered water tiles in the interior.

use vstd::prelude::*;
use crate::rng::roll;

verus! {

/// Map width in columns.
pub const MAP_WIDTH: usize = 80;

/// Map height in rows.
pub const MAP_HEIGHT: usize = 40;

/// Chance, in percent, that an interior cell of a generated map is water.
pub const WATER_CHANCE: i8 = 10;

/// One cell of the map.
#[derive(Debug, Copy, Clone, PartialEq, Eq, Structural)]
pub enum Tile {
    Floor,
    Wall,
    Water,
}

/// True of the cells in row 0, row `MAP_HEIGHT - 1`, column 0, or column
/// `MAP_WIDTH - 1`.
pub open spec fn on_border(x: int, y: int) -> bool {
    x == 0 || x == MAP_WIDTH - 1 || y == 0 || y == MAP_HEIGHT - 1
}

/// The cell where the player starts: the center of the map.
pub open spec fn is_start_cell(x: int, y: int) -> bool {
    x == MAP_WIDTH as int / 2 && y == MAP_HEIGHT as int / 2
}

/// What a generated map may hold at (x, y): walls on the border, floor at
/// the player's start cell, floor or water elsewhere.
pub open spec fn generated_cell_ok(t: Tile, x: int, y: int) -> bool {
    if on_border(x, y) {
        t == Tile::Wall
    } else if is_start_cell(x, y) {
        t == Tile::Floor
    } else {
        t == Tile::Floor || t == Tile::Water
    }
}

/// The game's grid of tiles, indexed `[row][column]`.
pub struct TileMap {
    pub tiles: Vec<Vec<Tile>>,
}

impl TileMap {
    /// The map has exactly `MAP_HEIGHT` rows of `MAP_WIDTH` columns each.
    pub open spec fn wf(self) -> bool {
        &&& self.tiles@.len() == MAP_HEIGHT
        &&& forall|y: int| 0 <= y < MAP_HEIGHT ==> #[trigger] self.tiles@[y]@.len() == MAP_WIDTH
    }

    /// The tile in column `x` of row `y`.
    pub open spec fn tile_at(self, x: int, y: int) -> Tile {
        self.tiles@[y]@[x]
    }

    /// A freshly generated map: border cells are walls, each interior cell
    /// independently becomes water with `WATER_CHANCE` percent probability,
    /// otherwise floor. The player's start cell is kept floor so that the
    /// player never begins on an impassable tile.
    pub fn generate() -> (m: TileMap)
        ensures
            m.wf(),
            forall|x: int, y: int|
                0 <= x < MAP_WIDTH && 0 <= y < MAP_HEIGHT ==> generated_cell_ok(
                    #[trigger] m.tile_at(x, y),
                    x,
                    y,
                ),
    {
        let mut tiles: Vec<Vec<Tile>> = Vec::new();
        let mut y: usize = 0;
        while y < MAP_HEIGHT
            invariant
                y <= MAP_HEIGHT,
                tiles@.len() == y,
                forall|r: int| 0 <= r < y ==> #[trigger] tiles@[r]@.len() == MAP_WIDTH,
                forall|c: int, r: int|
                    0 <= c < MAP_WIDTH && 0 <= r < y ==> generated_cell_ok(
                        #[trigger] tiles@[r]@[c],
                        c,
                        r,
                    ),
            decreases MAP_HEIGHT - y,
        {
            let mut row: Vec<Tile> = Vec::new();
            let mut x: usize = 0;
            while x < MAP_WIDTH
                invariant
                    x <= MAP_WIDTH,
                    y < MAP_HEIGHT,
                    row@.len() == x,
                    forall|c: int|
                        0 <= c < x ==> generated_cell_ok(#[trigger] row@[c], c, y as int),
                decreases MAP_WIDTH - x,
            {
                let tile = if y == 0 || y == MAP_HEIGHT - 1 || x == 0 || x == MAP_WIDTH - 1 {
                    Tile::Wall
                } else if x == MAP_WIDTH / 2 && y == MAP_HEIGHT / 2 {
                    Tile::Floor
                } else if roll(WATER_CHANCE) {
                    Tile::Water
                } else {
                    Tile::Floor
                };
                row.push(tile);
                x = x + 1;
            }
            tiles.push(row);
            y = y + 1;
        }
        TileMap { tiles }
    }

    /// A map with border walls and an all-floor interior: what `generate`
    /// yields when every water roll fails.
    pub fn all_floor() -> (m: TileMap)
        ensures
            m.wf(),
            forall|x: int, y: int|
                0 <= x < MAP_WIDTH && 0 <= y < MAP_HEIGHT ==> #[trigger] m.tile_at(x, y) == (
                if on_border(x, y) {
                    Tile::Wall
                } else {
                    Tile::Floor
                }),
    {
        let mut tiles: Vec<Vec<Tile>> = Vec::new();
        let mut y: usize = 0;
        while y < MAP_HEIGHT
            invariant
                y <= MAP_HEIGHT,
                tiles@.len() == y,
                forall|r: int| 0 <= r < y ==> #[trigger] tiles@[r]@.len() == MAP_WIDTH,
                forall|c: int, r: int|
                    0 <= c < MAP_WIDTH && 0 <= r < y ==> #[trigger] tiles@[r]@[c] == (
                    if on_border(c, r) {
                        Tile::Wall
                    } else {
                        Tile::Floor
                    }),
            decreases MAP_HEIGHT - y,
        {
            let mut row: Vec<Tile> = Vec::new();
            let mut x: usize = 0;
            while x < MAP_WIDTH
                invariant
                    x <= MAP_WIDTH,
                    y < MAP_HEIGHT,
                    row@.len() == x,
                    forall|c: int|
                        0 <= c < x ==> #[trigger] row@[c] == (
                        if on_border(c, y as int) {
                            Tile::Wall
                        } else {
                            Tile::Floor
                        }),
                decreases MAP_WIDTH - x,
            {
                let tile = if y == 0 || y == MAP_HEIGHT - 1 || x == 0 || x == MAP_WIDTH - 1 {
                    Tile::Wall
                } else {
                    Tile::Floor
                };
                row.push(tile);
                x = x + 1;
            }
            tiles.push(row);
            y = y + 1;
        }
        TileMap { tiles }
    }

    /// Read the tile in column `x` of row `y`.
    pub fn get(&self, x: usize, y: usize) -> (t: Tile)
        requires
            self.wf(),
            x < MAP_WIDTH,
            y < MAP_HEIGHT,
        ensures
            t == self.tile_at(x as int, y as int),
    {
        self.tiles[y][x]
    }
}

} // verus!
