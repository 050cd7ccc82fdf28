//! The game state machine: the current mode, the player's position and the
//! map, with one input key processed per frame. Movement is clamped to the
//! map and rejected toward walls and water; a successful move may trigger an
//! encounter, whose animation frames and dialog box the library computes for
//! the caller to show.

use vstd::prelude::*;
use crate::tilemap::{TileMap, Tile, MAP_WIDTH, MAP_HEIGHT, on_border, generated_cell_ok};
use crate::rng::{roll_range, random_precept, precept_spec, PRECEPT_COUNT};
use crate::dialog::{render_dialog, encounter_page, encounter_page_spec, dialog_matches};
use crate::transition::{transition_frames, frames_ok, first_frame_exact, Frame};
use crate::Vector2;

verus! {

/// Lower bound (inclusive) of the threshold window rolled after each
/// successful move to decide whether an encounter triggers.
pub const ENCOUNTER_MIN_CHANCE: i8 = 2;

/// Upper bound (exclusive) of the encounter threshold window.
pub const ENCOUNTER_MAX_CHANCE: i8 = 10;

/// Input byte for quit (the letter q).
pub const KEY_QUIT: u8 = 113;

/// Input byte for a move one column west (the letter h, vi-style).
pub const KEY_WEST: u8 = 104;

/// Input byte for a move one row south (the letter j, vi-style).
pub const KEY_SOUTH: u8 = 106;

/// Input byte for a move one row north (the letter k, vi-style).
pub const KEY_NORTH: u8 = 107;

/// Input byte for a move one column east (the letter l, vi-style).
pub const KEY_EAST: u8 = 108;

/// The current mode, restricting which inputs are processed. `InBattle` is a
/// stub for future battle logic: nothing enters it yet.
#[derive(Debug, Copy, Clone, PartialEq, Eq, Structural)]
pub enum GameState {
    OverWorld,
    BattleTransition,
    InBattle,
}

/// What processing one input key asks the caller to do next: stop the loop,
/// or continue, possibly playing an encounter first.
#[derive(Debug, Copy, Clone, PartialEq, Eq, Structural)]
pub enum KeyOutcome {
    Quit,
    Continue { encounter: bool },
}

/// An encounter ready to show: the transition animation's frames, then a
/// one-page dialog.
pub struct Encounter {
    pub frames: Vec<Frame>,
    pub dialog: Vec<Vec<char>>,
}

/// The whole game state.
pub struct Game {
    pub game_state: GameState,
    pub player_pos: Vector2,
    pub map: TileMap,
}

/// `v` clamped to [lo, hi].
pub open spec fn clamp_spec(v: int, lo: int, hi: int) -> int {
    if v < lo {
        lo
    } else if v > hi {
        hi
    } else {
        v
    }
}

fn clamp_i8(v: i8, lo: i8, hi: i8) -> (r: i8)
    requires
        lo <= hi,
    ensures
        r == clamp_spec(v as int, lo as int, hi as int),
{
    if v < lo {
        lo
    } else if v > hi {
        hi
    } else {
        v
    }
}

/// Every border cell of the map is a wall.
pub open spec fn borders_walled(m: TileMap) -> bool {
    forall|x: int, y: int|
        0 <= x < MAP_WIDTH && 0 <= y < MAP_HEIGHT && on_border(x, y) ==> #[trigger] m.tile_at(x, y)
            == Tile::Wall
}

/// The column a move with delta `dx` aims at: the player's column plus the
/// delta, clamped to the map.
pub open spec fn move_target_x(g: Game, dx: int) -> int {
    clamp_spec(g.player_pos.x + dx, 0, MAP_WIDTH - 1)
}

/// The row a move with delta `dy` aims at.
pub open spec fn move_target_y(g: Game, dy: int) -> int {
    clamp_spec(g.player_pos.y + dy, 0, MAP_HEIGHT - 1)
}

/// A move is carried out exactly when the game is in the overworld and the
/// target tile is floor (not a wall, not water).
pub open spec fn move_allowed(g: Game, dx: int, dy: int) -> bool {
    &&& g.game_state == GameState::OverWorld
    &&& g.map.tile_at(move_target_x(g, dx), move_target_y(g, dy)) == Tile::Floor
}

/// The horizontal movement delta of an input key (vi-style).
pub open spec fn key_dx(key: u8) -> int {
    if key == KEY_EAST {
        1
    } else if key == KEY_WEST {
        -1
    } else {
        0
    }
}

/// The vertical movement delta of an input key (vi-style).
pub open spec fn key_dy(key: u8) -> int {
    if key == KEY_SOUTH {
        1
    } else if key == KEY_NORTH {
        -1
    } else {
        0
    }
}

/// The four movement keys.
pub open spec fn is_move_key(key: u8) -> bool {
    key == KEY_WEST || key == KEY_SOUTH || key == KEY_NORTH || key == KEY_EAST
}

impl Game {
    /// The game's invariant: the map has the fixed dimensions with walls all
    /// around its border, and the player stands on a floor tile inside it.
    pub open spec fn wf(self) -> bool {
        &&& self.map.wf()
        &&& borders_walled(self.map)
        &&& 0 <= self.player_pos.x < MAP_WIDTH
        &&& 0 <= self.player_pos.y < MAP_HEIGHT
        &&& self.map.tile_at(self.player_pos.x as int, self.player_pos.y as int) == Tile::Floor
    }

    /// A fresh game: a newly generated map, the player at the center of it,
    /// in the overworld.
    pub fn new() -> (g: Game)
        ensures
            g.wf(),
            g.game_state == GameState::OverWorld,
            g.player_pos.x == MAP_WIDTH as int / 2,
            g.player_pos.y == MAP_HEIGHT as int / 2,
            forall|x: int, y: int|
                0 <= x < MAP_WIDTH && 0 <= y < MAP_HEIGHT ==> generated_cell_ok(
                    #[trigger] g.map.tile_at(x, y),
                    x,
                    y,
                ),
    {
        let map = TileMap::generate();
        Game {
            player_pos: Vector2::new((MAP_WIDTH / 2) as i8, (MAP_HEIGHT / 2) as i8),
            map,
            game_state: GameState::OverWorld,
        }
    }

    /// A game over a given map, with the player at the center: what `new`
    /// yields for that map. Lets a caller fix the map — say, one whose water
    /// rolls all failed — instead of generating one.
    pub fn with_map(map: TileMap) -> (g: Game)
        requires
            map.wf(),
            borders_walled(map),
            map.tile_at(MAP_WIDTH as int / 2, MAP_HEIGHT as int / 2) == Tile::Floor,
        ensures
            g.wf(),
            g.game_state == GameState::OverWorld,
            g.player_pos.x == MAP_WIDTH as int / 2,
            g.player_pos.y == MAP_HEIGHT as int / 2,
            g.map == map,
    {
        Game {
            player_pos: Vector2::new((MAP_WIDTH / 2) as i8, (MAP_HEIGHT / 2) as i8),
            map,
            game_state: GameState::OverWorld,
        }
    }

    /// One movement attempt. Outside the overworld, or toward a wall or
    /// water tile, nothing changes and no encounter is rolled. Otherwise the
    /// player moves to the target tile (clamped to the map) and an encounter
    /// is rolled; the result says whether one triggered, and the caller then
    /// plays it with `gen_encounter`.
    pub fn handle_move_input(&mut self, dir_x: i8, dir_y: i8) -> (encounter: bool)
        requires
            old(self).wf(),
            -1 <= dir_x <= 1,
            -1 <= dir_y <= 1,
        ensures
            final(self).wf(),
            final(self).map == old(self).map,
            final(self).game_state == old(self).game_state,
            !move_allowed(*old(self), dir_x as int, dir_y as int) ==> *final(self) == *old(self)
                && !encounter,
            move_allowed(*old(self), dir_x as int, dir_y as int) ==> final(self).player_pos.x
                == move_target_x(*old(self), dir_x as int) && final(self).player_pos.y
                == move_target_y(*old(self), dir_y as int),
            encounter ==> move_allowed(*old(self), dir_x as int, dir_y as int),
    {
        if self.game_state != GameState::OverWorld {
            return false;
        }
        let start_pos = self.player_pos;
        let new_x = clamp_i8(start_pos.x + dir_x, 0, (MAP_WIDTH as i8) - 1);
        let new_y = clamp_i8(start_pos.y + dir_y, 0, (MAP_HEIGHT as i8) - 1);
        let target_tile = self.map.get(new_x as usize, new_y as usize);
        if target_tile == Tile::Wall || target_tile == Tile::Water {
            return false;
        }
        self.player_pos = Vector2::new(new_x, new_y);
        roll_range(ENCOUNTER_MIN_CHANCE, ENCOUNTER_MAX_CHANCE)
    }

    /// One input key, processed: `q` quits; `h`, `j`, `k`, `l` attempt a
    /// move; any other byte does nothing.
    pub fn handle_key(&mut self, key: u8) -> (r: KeyOutcome)
        requires
            old(self).wf(),
        ensures
            final(self).wf(),
            final(self).map == old(self).map,
            final(self).game_state == old(self).game_state,
            r is Quit <==> key == KEY_QUIT,
            key == KEY_QUIT ==> *final(self) == *old(self),
            !is_move_key(key) && key != KEY_QUIT ==> *final(self) == *old(self) && r == (
            KeyOutcome::Continue { encounter: false }),
            is_move_key(key) && !move_allowed(*old(self), key_dx(key), key_dy(key)) ==> *final(self)
                == *old(self) && r == (KeyOutcome::Continue { encounter: false }),
            is_move_key(key) && move_allowed(*old(self), key_dx(key), key_dy(key)) ==> final(self).player_pos.x
                == move_target_x(*old(self), key_dx(key)) && final(self).player_pos.y
                == move_target_y(*old(self), key_dy(key)),
            r == (KeyOutcome::Continue { encounter: true }) ==> is_move_key(key) && move_allowed(
                *old(self),
                key_dx(key),
                key_dy(key),
            ),
    {
        match key {
            KEY_NORTH => KeyOutcome::Continue { encounter: self.handle_move_input(0, -1) },
            KEY_SOUTH => KeyOutcome::Continue { encounter: self.handle_move_input(0, 1) },
            KEY_EAST => KeyOutcome::Continue { encounter: self.handle_move_input(1, 0) },
            KEY_WEST => KeyOutcome::Continue { encounter: self.handle_move_input(-1, 0) },
            KEY_QUIT => KeyOutcome::Quit,
            _ => KeyOutcome::Continue { encounter: false },
        }
    }

    /// One encounter, computed: the state passes through the battle
    /// transition and returns to the overworld; the result holds the
    /// transition animation's frames over the current map and a dialog box
    /// whose page is one of the fixed precepts followed by the player's
    /// coordinates. The caller shows the frames, each held for its pause,
    /// then the dialog.
    pub fn gen_encounter(&mut self) -> (enc: Encounter)
        requires
            old(self).wf(),
        ensures
            final(self).wf(),
            final(self).game_state == GameState::OverWorld,
            final(self).player_pos == old(self).player_pos,
            final(self).map == old(self).map,
            frames_ok(enc.frames@, old(self).map),
            first_frame_exact(enc.frames@[0], old(self).map, old(self).player_pos),
            exists|i: int|
                0 <= i < PRECEPT_COUNT && dialog_matches(
                    enc.dialog@,
                    encounter_page_spec(
                        #[trigger] precept_spec(i),
                        old(self).player_pos.x as int,
                        old(self).player_pos.y as int,
                    ),
                ),
    {
        self.game_state = GameState::BattleTransition;
        let frames = transition_frames(&self.map, self.player_pos);
        self.game_state = GameState::OverWorld;

        let precept = random_precept();
        let page = encounter_page(precept, self.player_pos.x, self.player_pos.y);
        let mut pages: Vec<Vec<char>> = Vec::new();
        pages.push(page);
        let dialog = render_dialog(&pages);
        proof {
            let i = choose|i: int| 0 <= i < PRECEPT_COUNT && precept@ == precept_spec(i);
            assert(dialog_matches(
                dialog@,
                encounter_page_spec(
                    precept_spec(i),
                    old(self).player_pos.x as int,
                    old(self).player_pos.y as int,
                ),
            ));
        }
        Encounter { frames, dialog }
    }
}

/// A well-formed game's player always stands strictly inside the border, on
/// a floor tile — never on a wall or water tile — and so repeated movement,
/// which preserves well-formedness, can never leave the bounded grid.
pub proof fn lemma_player_strictly_inside(g: Game)
    requires
        g.wf(),
    ensures
        0 < g.player_pos.x < MAP_WIDTH - 1,
        0 < g.player_pos.y < MAP_HEIGHT - 1,
        g.map.tile_at(g.player_pos.x as int, g.player_pos.y as int) == Tile::Floor,
{
    assert(!on_border(g.player_pos.x as int, g.player_pos.y as int));
}

} // verus!
