use tilegame::dialog::render_dialog;
use tilegame::game::{Game, KEY_EAST};
use tilegame::render::{glyphs_of, render_frame};
use tilegame::tilemap::{TileMap, MAP_HEIGHT, MAP_WIDTH};

#[test]
fn empty_page_sequence_renders_nothing() {
    let pages: Vec<Vec<char>> = Vec::new();
    let lines = render_dialog(&pages);
    assert!(lines.is_empty());
}

#[test]
fn dialog_box_layout_is_exact() {
    let pages = vec!["hi".chars().collect::<Vec<char>>()];
    let lines = render_dialog(&pages);
    assert_eq!(lines.len(), 10);
    for (i, line) in lines.iter().enumerate() {
        assert_eq!(line.len(), MAP_WIDTH);
        for (j, &c) in line.iter().enumerate() {
            let want = if i == 9 {
                '-'
            } else if j == 0 || j == MAP_WIDTH - 1 {
                '|'
            } else if i == 1 && j == 1 {
                'h'
            } else if i == 1 && j == 2 {
                'i'
            } else {
                ' '
            };
            assert_eq!(c, want, "row {} column {}", i, j);
        }
    }
}

#[test]
fn long_page_text_is_truncated_at_the_border() {
    let long: Vec<char> = std::iter::repeat('x').take(500).collect();
    let lines = render_dialog(&vec![long]);
    assert_eq!(lines[1][0], '|');
    for j in 1..MAP_WIDTH - 1 {
        assert_eq!(lines[1][j], 'x');
    }
    assert_eq!(lines[1][MAP_WIDTH - 1], '|');
}

#[test]
fn only_first_page_is_shown() {
    let pages = vec![
        "one".chars().collect::<Vec<char>>(),
        "two".chars().collect::<Vec<char>>(),
    ];
    let lines = render_dialog(&pages);
    let row: String = lines[1].iter().collect();
    assert!(row.contains("one"));
    assert!(!row.contains("two"));
}

#[test]
fn frame_shows_single_player_glyph_at_position() {
    let g = Game::with_map(TileMap::all_floor());
    let glyphs = glyphs_of(&g.map);
    let frame = render_frame(&glyphs, g.player_pos);
    let mut player_cells = Vec::new();
    for y in 0..MAP_HEIGHT {
        for x in 0..MAP_WIDTH {
            if frame[y][x] == '@' {
                player_cells.push((x, y));
            }
        }
    }
    assert_eq!(player_cells, vec![(40, 20)]);
}

#[test]
fn moving_east_four_times_lands_at_forty_four() {
    // A fixed water-free map: what generation yields when every water roll
    // fails. Each intermediate frame shows exactly one player glyph, at the
    // updated coordinates.
    let mut g = Game::with_map(TileMap::all_floor());
    for step in 1..=4u8 {
        g.handle_key(KEY_EAST);
        assert_eq!((g.player_pos.x, g.player_pos.y), (40 + step as i8, 20));
        let frame = render_frame(&glyphs_of(&g.map), g.player_pos);
        let mut player_cells = Vec::new();
        for y in 0..MAP_HEIGHT {
            for x in 0..MAP_WIDTH {
                if frame[y][x] == '@' {
                    player_cells.push((x as i8, y as i8));
                }
            }
        }
        assert_eq!(player_cells, vec![(g.player_pos.x, g.player_pos.y)]);
    }
    assert_eq!((g.player_pos.x, g.player_pos.y), (44, 20));
}

#[test]
fn map_glyphs_match_tiles() {
    let g = Game::new();
    let glyphs = glyphs_of(&g.map);
    assert_eq!(glyphs.len(), MAP_HEIGHT);
    for y in 0..MAP_HEIGHT {
        assert_eq!(glyphs[y].len(), MAP_WIDTH);
        for x in 0..MAP_WIDTH {
            let want = match g.map.get(x, y) {
                tilegame::tilemap::Tile::Floor => ' ',
                tilegame::tilemap::Tile::Wall => '\u{2588}',
                tilegame::tilemap::Tile::Water => '~',
            };
            assert_eq!(glyphs[y][x], want);
        }
    }
}
