use tilegame::game::{Game, GameState};
use tilegame::tilemap::{TileMap, MAP_HEIGHT, MAP_WIDTH};
use tilegame::transition::{transition_frames, FINAL_HOLD_MS, INITIAL_DELAY_MS};
use tilegame::Vector2;

#[test]
fn vector2_new_and_add() {
    let a = Vector2::new(3, -4);
    assert_eq!((a.x, a.y), (3, -4));
    let b = a.add(Vector2::new(1, 2));
    assert_eq!((b.x, b.y), (4, -2));
}

#[test]
fn transition_walks_the_full_spiral() {
    let m = TileMap::all_floor();
    let frames = transition_frames(&m, Vector2::new(40, 20));
    // One frame per cell of each leg: legs of length 1, 1, 2, 2, ..., 39, 39,
    // plus the final all-flash frame.
    let spiral_steps: usize = 2 * (1..=39).sum::<usize>();
    assert_eq!(frames.len(), spiral_steps + 1);

    // The walk starts eastward: the first frame flashes the cell east of the
    // start, and is held for the initial pause.
    assert_eq!(frames[0].delay_ms, INITIAL_DELAY_MS);
    assert_eq!(frames[0].glyphs[20][41], '*');
    assert_eq!(frames[0].glyphs[20][40], ' ');

    // The pause decays by seven tenths after every second leg.
    assert_eq!(frames[1].delay_ms, INITIAL_DELAY_MS);
    assert_eq!(frames[2].delay_ms, INITIAL_DELAY_MS * 7 / 10);

    // The final frame is entirely flash glyphs, held for the long pause.
    let last = frames.last().unwrap();
    assert_eq!(last.delay_ms, FINAL_HOLD_MS);
    for y in 0..MAP_HEIGHT {
        for x in 0..MAP_WIDTH {
            assert_eq!(last.glyphs[y][x], '*');
        }
    }

    // Every earlier frame shows only map glyphs and flash glyphs.
    for f in &frames {
        assert_eq!(f.glyphs.len(), MAP_HEIGHT);
        for y in 0..MAP_HEIGHT {
            assert_eq!(f.glyphs[y].len(), MAP_WIDTH);
            for x in 0..MAP_WIDTH {
                assert!(matches!(f.glyphs[y][x], ' ' | '\u{2588}' | '~' | '*'));
            }
        }
    }
}

#[test]
fn encounter_returns_to_overworld_with_precept_dialog() {
    let mut g = Game::with_map(TileMap::all_floor());
    let enc = g.gen_encounter();
    assert_eq!(g.game_state, GameState::OverWorld);
    assert_eq!((g.player_pos.x, g.player_pos.y), (40, 20));

    assert!(!enc.frames.is_empty());
    assert_eq!(enc.frames.last().unwrap().delay_ms, FINAL_HOLD_MS);

    assert_eq!(enc.dialog.len(), 10);
    let text_row: String = enc.dialog[1].iter().collect();
    let body = text_row.trim_matches('|').trim_end();
    assert!(body.ends_with(" | 40 | 20"), "dialog row was {:?}", body);
    let shown = body.strip_suffix(" | 40 | 20").unwrap();
    let mut found = false;
    for i in 0..tilegame::rng::PRECEPT_COUNT {
        if tilegame::rng::precept(i) == shown {
            found = true;
        }
    }
    assert!(found, "dialog precept was {:?}", shown);
}
