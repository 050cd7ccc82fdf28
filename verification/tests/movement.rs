use tilegame::game::{Game, GameState, KeyOutcome, KEY_EAST, KEY_NORTH, KEY_QUIT, KEY_SOUTH, KEY_WEST};
use tilegame::tilemap::{Tile, TileMap, MAP_HEIGHT, MAP_WIDTH};

#[test]
fn generated_map_has_border_walls_and_inside_player() {
    let g = Game::new();
    for y in 0..MAP_HEIGHT {
        for x in 0..MAP_WIDTH {
            let t = g.map.get(x, y);
            if y == 0 || y == MAP_HEIGHT - 1 || x == 0 || x == MAP_WIDTH - 1 {
                assert_eq!(t, Tile::Wall, "border cell ({}, {}) is not a wall", x, y);
            } else {
                assert!(t == Tile::Floor || t == Tile::Water);
            }
        }
    }
    assert_eq!(g.player_pos.x, 40);
    assert_eq!(g.player_pos.y, 20);
    assert_eq!(g.map.get(40, 20), Tile::Floor);
    assert_eq!(g.game_state, GameState::OverWorld);
}

#[test]
fn movement_toward_wall_is_rejected_without_encounter_roll() {
    let mut m = TileMap::all_floor();
    m.tiles[20][41] = Tile::Wall;
    let mut g = Game::with_map(m);
    let encounter = g.handle_move_input(1, 0);
    assert!(!encounter);
    assert_eq!(g.player_pos.x, 40);
    assert_eq!(g.player_pos.y, 20);
}

#[test]
fn movement_toward_water_is_rejected_without_encounter_roll() {
    let mut m = TileMap::all_floor();
    m.tiles[19][40] = Tile::Water;
    let mut g = Game::with_map(m);
    let encounter = g.handle_move_input(0, -1);
    assert!(!encounter);
    assert_eq!(g.player_pos.x, 40);
    assert_eq!(g.player_pos.y, 20);
}

#[test]
fn movement_outside_overworld_is_rejected() {
    let mut g = Game::with_map(TileMap::all_floor());
    g.game_state = GameState::InBattle;
    let encounter = g.handle_move_input(1, 0);
    assert!(!encounter);
    assert_eq!(g.player_pos.x, 40);
    assert_eq!(g.player_pos.y, 20);
    assert_eq!(g.game_state, GameState::InBattle);
}

#[test]
fn movement_onto_floor_updates_position() {
    let mut g = Game::with_map(TileMap::all_floor());
    g.handle_move_input(1, 0);
    assert_eq!((g.player_pos.x, g.player_pos.y), (41, 20));
    g.handle_move_input(0, 1);
    assert_eq!((g.player_pos.x, g.player_pos.y), (41, 21));
    g.handle_move_input(-1, 0);
    assert_eq!((g.player_pos.x, g.player_pos.y), (40, 21));
    g.handle_move_input(0, -1);
    assert_eq!((g.player_pos.x, g.player_pos.y), (40, 20));
}

#[test]
fn repeated_movement_stays_on_the_grid() {
    // A map that is floor everywhere, border included, so that only the
    // clamp to the map's bounds stops the walk.
    let mut m = TileMap::all_floor();
    for y in 0..MAP_HEIGHT {
        for x in 0..MAP_WIDTH {
            m.tiles[y][x] = Tile::Floor;
        }
    }
    let mut g = Game::with_map(m);
    for _ in 0..100 {
        g.handle_move_input(-1, 0);
        assert!(g.player_pos.x >= 0);
    }
    assert_eq!(g.player_pos.x, 0);
    for _ in 0..100 {
        g.handle_move_input(0, 1);
        assert!((g.player_pos.y as usize) < MAP_HEIGHT);
    }
    assert_eq!(g.player_pos.y as usize, MAP_HEIGHT - 1);
}

#[test]
fn movement_keys_map_to_vi_directions() {
    let mut g = Game::with_map(TileMap::all_floor());
    assert!(matches!(g.handle_key(KEY_EAST), KeyOutcome::Continue { .. }));
    assert_eq!((g.player_pos.x, g.player_pos.y), (41, 20));
    g.handle_key(KEY_SOUTH);
    assert_eq!((g.player_pos.x, g.player_pos.y), (41, 21));
    g.handle_key(KEY_WEST);
    assert_eq!((g.player_pos.x, g.player_pos.y), (40, 21));
    g.handle_key(KEY_NORTH);
    assert_eq!((g.player_pos.x, g.player_pos.y), (40, 20));
}

#[test]
fn unrecognized_keys_do_nothing() {
    let mut g = Game::with_map(TileMap::all_floor());
    for key in [b'a', b'z', b'Q', b'H', 0u8, 255u8] {
        let r = g.handle_key(key);
        assert_eq!(r, KeyOutcome::Continue { encounter: false });
        assert_eq!((g.player_pos.x, g.player_pos.y), (40, 20));
        assert_eq!(g.game_state, GameState::OverWorld);
    }
}

#[test]
fn quit_key_ends_the_loop_without_any_change() {
    let mut g = Game::with_map(TileMap::all_floor());
    let r = g.handle_key(KEY_QUIT);
    assert_eq!(r, KeyOutcome::Quit);
    assert_eq!((g.player_pos.x, g.player_pos.y), (40, 20));
    assert_eq!(g.game_state, GameState::OverWorld);
}
