//! The encounter transition: an outward rectangular spiral walked from the
//! player's position, painting each visited cell with the flash glyph and
//! yielding one frame per step, with a pause that shrinks as the spiral
//! widens; a final all-flash frame is held for a longer fixed pause. The
//! library computes the frames and their pauses; showing them (and sleeping
//! between them) happens outside it.

use vstd::prelude::*;
use crate::tilemap::{TileMap, MAP_WIDTH, MAP_HEIGHT};
use crate::render::{grid_wf, glyphs_of, clone_grid, flash_grid, tile_glyph, FLASH_GLYPH};
use crate::Vector2;

verus! {

/// The spiral stops once its leg length reaches this: half the longer map
/// dimension.
pub const SPIRAL_LIMIT: usize = 40;

/// Pause after the first frame, in milliseconds.
pub const INITIAL_DELAY_MS: u64 = 90;

/// Each full turn of the spiral multiplies the pause by this numerator over
/// this denominator (a seven-tenths decay), so the animation accelerates.
pub const DECAY_NUM: u64 = 7;

/// See `DECAY_NUM`.
pub const DECAY_DEN: u64 = 10;

/// Pause on the final all-flash frame, in milliseconds.
pub const FINAL_HOLD_MS: u64 = 1200;

/// How far the walker's column moves on one step in direction `dir`
/// (0 right, 1 down, 2 left, 3 up).
pub open spec fn dir_dx(dir: int) -> int {
    if dir == 0 {
        1
    } else if dir == 2 {
        -1
    } else {
        0
    }
}

/// How far the walker's row moves on one step in direction `dir`.
pub open spec fn dir_dy(dir: int) -> int {
    if dir == 1 {
        1
    } else if dir == 3 {
        -1
    } else {
        0
    }
}

/// One frame of the transition animation: a full glyph grid and the pause
/// that follows it.
pub struct Frame {
    pub glyphs: Vec<Vec<char>>,
    pub delay_ms: u64,
}

/// The spiral walker: a scratch glyph grid plus the walk's position,
/// direction, leg length and pause.
pub struct Transition {
    /// Scratch copy of the map's glyphs, with visited cells flashed.
    pub glyphs: Vec<Vec<char>>,
    /// The walker's column; it may leave the grid as the spiral widens.
    pub x: i32,
    /// The walker's row; it may leave the grid as the spiral widens.
    pub y: i32,
    /// Direction of the current leg: 0 right, 1 down, 2 left, 3 up.
    pub dir: usize,
    /// Length of the current leg, in cells.
    pub step_count: usize,
    /// Steps still to walk on the current leg.
    pub steps_left: usize,
    /// Pause after each frame of the current turn, in milliseconds.
    pub delay_ms: u64,
}

impl Transition {
    /// A bound that shrinks with every step; keeping the walker's
    /// coordinates within it shows they stay far from any machine limit.
    pub open spec fn slack(self) -> int {
        100 * (SPIRAL_LIMIT - self.step_count) + 41 * (
        if self.dir % 2 == 0 {
            1int
        } else {
            0int
        }) + self.steps_left
    }

    pub open spec fn wf(self) -> bool {
        &&& grid_wf(self.glyphs@)
        &&& self.dir < 4
        &&& 1 <= self.step_count <= SPIRAL_LIMIT
        &&& 1 <= self.steps_left <= self.step_count
        &&& -5000 + self.slack() <= self.x <= 5000 - self.slack()
        &&& -5000 + self.slack() <= self.y <= 5000 - self.slack()
        &&& self.delay_ms <= INITIAL_DELAY_MS
    }

    /// The walk ends once the leg length reaches the spiral limit.
    pub open spec fn done_spec(self) -> bool {
        self.step_count >= SPIRAL_LIMIT
    }

    pub fn done(&self) -> (r: bool)
        ensures
            r == self.done_spec(),
    {
        self.step_count >= SPIRAL_LIMIT
    }

    /// A walker at the player's position over a fresh scratch copy of the
    /// map's glyphs, about to walk one cell to the right.
    pub fn new(m: &TileMap, start: Vector2) -> (t: Transition)
        requires
            m.wf(),
            0 <= start.x < MAP_WIDTH,
            0 <= start.y < MAP_HEIGHT,
        ensures
            t.wf(),
            !t.done_spec(),
            t.x == start.x,
            t.y == start.y,
            t.dir == 0,
            t.step_count == 1,
            t.steps_left == 1,
            t.delay_ms == INITIAL_DELAY_MS,
            forall|x: int, y: int|
                0 <= x < MAP_WIDTH && 0 <= y < MAP_HEIGHT ==> #[trigger] t.glyphs@[y]@[x]
                    == tile_glyph(m.tile_at(x, y)),
    {
        Transition {
            glyphs: glyphs_of(m),
            x: start.x as i32,
            y: start.y as i32,
            dir: 0,
            step_count: 1,
            steps_left: 1,
            delay_ms: INITIAL_DELAY_MS,
        }
    }

    /// One step of the walk: the walker moves one cell along the current
    /// direction, the cell it lands on is flashed if it lies on the grid,
    /// and the pause to take after this frame is returned. At the end of a
    /// leg the direction turns clockwise, and every second turn lengthens
    /// the legs by one and decays the pause.
    pub fn step(&mut self) -> (delay: u64)
        requires
            old(self).wf(),
            !old(self).done_spec(),
        ensures
            final(self).wf(),
            delay == old(self).delay_ms,
            final(self).x == old(self).x + dir_dx(old(self).dir as int),
            final(self).y == old(self).y + dir_dy(old(self).dir as int),
            forall|cx: int, cy: int|
                0 <= cx < MAP_WIDTH && 0 <= cy < MAP_HEIGHT ==> #[trigger] final(self).glyphs@[cy]@[cx] == (
                if cx == final(self).x && cy == final(self).y {
                    FLASH_GLYPH
                } else {
                    old(self).glyphs@[cy]@[cx]
                }),
            old(self).steps_left > 1 ==> {
                &&& final(self).dir == old(self).dir
                &&& final(self).step_count == old(self).step_count
                &&& final(self).steps_left == old(self).steps_left - 1
                &&& final(self).delay_ms == old(self).delay_ms
            },
            old(self).steps_left == 1 ==> {
                &&& final(self).dir == (old(self).dir + 1) % 4
                &&& final(self).steps_left == final(self).step_count
                &&& (if (old(self).dir + 1) % 2 == 0 {
                    final(self).step_count == old(self).step_count + 1 && final(self).delay_ms
                        == old(self).delay_ms * DECAY_NUM / (DECAY_DEN as int)
                } else {
                    final(self).step_count == old(self).step_count && final(self).delay_ms == old(
                        self,
                    ).delay_ms
                })
            },
    {
        let dx: i32 = if self.dir == 0 {
            1
        } else if self.dir == 2 {
            -1
        } else {
            0
        };
        let dy: i32 = if self.dir == 1 {
            1
        } else if self.dir == 3 {
            -1
        } else {
            0
        };
        self.x = self.x + dx;
        self.y = self.y + dy;
        if 0 <= self.x && self.x < MAP_WIDTH as i32 && 0 <= self.y && self.y < MAP_HEIGHT as i32 {
            self.glyphs[self.y as usize][self.x as usize] = FLASH_GLYPH;
        }
        let delay = self.delay_ms;
        if self.steps_left > 1 {
            self.steps_left = self.steps_left - 1;
        } else {
            self.dir = if self.dir == 3 {
                0
            } else {
                self.dir + 1
            };
            if self.dir % 2 == 0 {
                self.step_count = self.step_count + 1;
                self.delay_ms = self.delay_ms * DECAY_NUM / DECAY_DEN;
            }
            self.steps_left = self.step_count;
        }
        delay
    }
}

/// Every cell of the frame shows either the map's own tile or the flash
/// glyph, and the frame has the map's dimensions.
pub open spec fn frame_cells_ok(f: Frame, m: TileMap) -> bool {
    &&& grid_wf(f.glyphs@)
    &&& f.delay_ms <= FINAL_HOLD_MS
    &&& forall|x: int, y: int|
        0 <= x < MAP_WIDTH && 0 <= y < MAP_HEIGHT ==> (#[trigger] f.glyphs@[y]@[x] == tile_glyph(
            m.tile_at(x, y),
        ) || f.glyphs@[y]@[x] == FLASH_GLYPH)
}

/// The first frame of the walk from `start`: the cell one column east of
/// the start (if it lies on the grid) is flashed, every other cell shows the
/// map's own tile, and the frame is held for the initial pause.
pub open spec fn first_frame_exact(f: Frame, m: TileMap, start: Vector2) -> bool {
    &&& f.delay_ms == INITIAL_DELAY_MS
    &&& grid_wf(f.glyphs@)
    &&& forall|x: int, y: int|
        0 <= x < MAP_WIDTH && 0 <= y < MAP_HEIGHT ==> #[trigger] f.glyphs@[y]@[x] == (
        if x == start.x + 1 && y == start.y {
            FLASH_GLYPH
        } else {
            tile_glyph(m.tile_at(x, y))
        })
}

/// What the transition animation yields over map `m`: at least one frame,
/// every frame showing only the map's tiles and flashed cells, and a final
/// frame that is entirely flash glyphs, held for the long fixed pause.
pub open spec fn frames_ok(frames: Seq<Frame>, m: TileMap) -> bool {
    &&& frames.len() >= 1
    &&& forall|k: int| 0 <= k < frames.len() ==> frame_cells_ok(#[trigger] frames[k], m)
    &&& forall|x: int, y: int|
        0 <= x < MAP_WIDTH && 0 <= y < MAP_HEIGHT ==> #[trigger] frames.last().glyphs@[y]@[x]
            == FLASH_GLYPH
    &&& frames.last().delay_ms == FINAL_HOLD_MS
}

/// The whole transition animation from the player's position: the spiral
/// walk's frames in order, each with its pause, then the all-flash frame.
pub fn transition_frames(m: &TileMap, start: Vector2) -> (frames: Vec<Frame>)
    requires
        m.wf(),
        0 <= start.x < MAP_WIDTH,
        0 <= start.y < MAP_HEIGHT,
    ensures
        frames_ok(frames@, *m),
        frames@.len() >= 2,
        first_frame_exact(frames@[0], *m, start),
{
    let mut t = Transition::new(m, start);
    let mut frames: Vec<Frame> = Vec::new();
    while !t.done()
        invariant
            t.wf(),
            m.wf(),
            0 <= start.x < MAP_WIDTH,
            0 <= start.y < MAP_HEIGHT,
            forall|x: int, y: int|
                0 <= x < MAP_WIDTH && 0 <= y < MAP_HEIGHT ==> (#[trigger] t.glyphs@[y]@[x]
                    == tile_glyph(m.tile_at(x, y)) || t.glyphs@[y]@[x] == FLASH_GLYPH),
            forall|k: int| 0 <= k < frames@.len() ==> frame_cells_ok(#[trigger] frames@[k], *m),
            frames@.len() == 0 ==> {
                &&& t.x == start.x
                &&& t.y == start.y
                &&& t.dir == 0
                &&& t.step_count == 1
                &&& t.steps_left == 1
                &&& t.delay_ms == INITIAL_DELAY_MS
                &&& forall|x: int, y: int|
                    0 <= x < MAP_WIDTH && 0 <= y < MAP_HEIGHT ==> #[trigger] t.glyphs@[y]@[x]
                        == tile_glyph(m.tile_at(x, y))
            },
            frames@.len() >= 1 ==> first_frame_exact(frames@[0], *m, start),
        decreases
                SPIRAL_LIMIT - t.step_count,
                (if t.dir % 2 == 0 {
                    1int
                } else {
                    0int
                }),
                t.steps_left,
    {
        let delay = t.step();
        let glyphs = clone_grid(&t.glyphs);
        frames.push(Frame { glyphs, delay_ms: delay });
    }
    let glyphs = flash_grid();
    frames.push(Frame { glyphs, delay_ms: FINAL_HOLD_MS });
    frames
}

} // verus!
