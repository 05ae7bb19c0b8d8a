//! The level scene: board, falling piece, bag, score and drop timer.
//!
//! Movement and rotation are validated before they mutate anything; locking
//! merges the falling piece into the board, hands control to a fresh piece
//! from the bag, and removes every full row.  A piece locked at or above the
//! playable height is the loss condition: board and score reset and the
//! scene asks for a switch back to the home screen on its next update.

use vstd::prelude::*;
use crate::GridPos;
use crate::Scene;
use crate::bag::Bag;
use crate::board::{Board, Block, cleared_rows, locked_grid, max4, num_full};
use crate::draw::{Canvas, DrawRequest, TextContent};
use crate::input::Key;
use crate::piece::{Offset, Tetramino, is_catalog_piece};
use crate::rect::Rect;
use crate::rgb::Rgb;
use crate::vector2::Vector2;

verus! {

/// The square region of the grid cell `(x, y)`, in world coordinates.
pub open spec fn grid_region(x: int, y: int) -> Rect {
    Rect {
        center: Vector2 { x: (20 * x + 10) as i32, y: (20 * y + 10) as i32 },
        size: Vector2 { x: 20, y: 20 },
    }
}

/// The background square drawn for the grid cell `(i, j)`: the cell region
/// shrunk by a tenth, in dark gray.
pub open spec fn background_draw(i: int, j: int) -> DrawRequest {
    DrawRequest::SolidRect {
        region: Rect {
            center: Vector2 { x: (20 * i + 10) as i32, y: (20 * j + 10) as i32 },
            size: Vector2 { x: 18, y: 18 },
        },
        color: Rgb { r: 64, g: 64, b: 64 },
    }
}

/// The background squares of the whole 10 x 20 grid, column by column.
pub open spec fn background_draws() -> Seq<DrawRequest> {
    Seq::new(200, |k: int| background_draw(k / 20, k % 20))
}

/// A filled square covering the grid cell `(x, y)`.
pub open spec fn block_draw(x: int, y: int, color: Rgb) -> DrawRequest {
    DrawRequest::SolidRect { region: grid_region(x, y), color }
}

/// The squares of the occupied cells of one row, left to right (first `n`
/// columns).
pub open spec fn row_draws(row: Seq<Option<Block>>, y: int, n: int) -> Seq<DrawRequest>
    decreases n,
{
    if n <= 0 {
        Seq::empty()
    } else {
        row_draws(row, y, n - 1) + match row[n - 1] {
            Some(b) => seq![block_draw(n - 1, y, b.color)],
            None => Seq::empty(),
        }
    }
}

/// The squares of the occupied cells of the first `n` rows, bottom to top,
/// each row left to right.
pub open spec fn stack_draws(g: Seq<Seq<Option<Block>>>, n: int) -> Seq<DrawRequest>
    decreases n,
{
    if n <= 0 {
        Seq::empty()
    } else {
        stack_draws(g, n - 1) + row_draws(g[n - 1], n - 1, g[n - 1].len() as int)
    }
}

/// One square of a tetramino block with offset `o`, for a piece at grid
/// position `(px, py)`, shifted by `(bx, by)` world quarters.
pub open spec fn tetramino_block_draw(
    o: Offset,
    px: int,
    py: int,
    bx: int,
    by: int,
    color: Rgb,
) -> DrawRequest {
    DrawRequest::SolidRect {
        region: Rect {
            center: Vector2 {
                x: (20 * cell_x(px, o) + 10 + bx) as i32,
                y: (20 * cell_y(py, o) + 10 + by) as i32,
            },
            size: Vector2 { x: 20, y: 20 },
        },
        color,
    }
}

/// The four squares of a tetramino at grid position `(px, py)`, shifted by
/// `(bx, by)` world quarters, in offset order.
pub open spec fn tetramino_draws(p: Tetramino, px: int, py: int, bx: int, by: int) -> Seq<
    DrawRequest,
> {
    seq![
        tetramino_block_draw(p.block_positions.0, px, py, bx, by, p.color),
        tetramino_block_draw(p.block_positions.1, px, py, bx, by, p.color),
        tetramino_block_draw(p.block_positions.2, px, py, bx, by, p.color),
        tetramino_block_draw(p.block_positions.3, px, py, bx, by, p.color),
    ]
}

/// The score line, drawn at the side of the board.
pub open spec fn score_draw(score: int) -> DrawRequest {
    DrawRequest::Text {
        position: Vector2 { x: 208, y: 400 },
        color: Rgb { r: 255, g: 255, b: 255 },
        font_size: 20,
        content: TextContent::Score(score as u64),
    }
}

/// The heading above the upcoming-piece preview.
pub open spec fn next_header_draw() -> DrawRequest {
    DrawRequest::Text {
        position: Vector2 { x: 208, y: 320 },
        color: Rgb { r: 255, g: 255, b: 255 },
        font_size: 20,
        content: TextContent::NextHeader,
    }
}

/// The grid column of a block with offset `o` for a piece at column `px`:
/// the offset is floored from quarter cells to whole cells.
pub open spec fn cell_x(px: int, o: Offset) -> int {
    px + o.x / 4
}

/// The grid row of a block with offset `o` for a piece at row `py`.
pub open spec fn cell_y(py: int, o: Offset) -> int {
    py + o.y / 4
}

/// Whether every block of piece `p` may sit on `b` with the piece origin at
/// `(px, py)`.
pub open spec fn piece_fits(b: Board, p: Tetramino, px: int, py: int) -> bool {
    &&& b.valid_pos(cell_x(px, p.block_positions.0), cell_y(py, p.block_positions.0))
    &&& b.valid_pos(cell_x(px, p.block_positions.1), cell_y(py, p.block_positions.1))
    &&& b.valid_pos(cell_x(px, p.block_positions.2), cell_y(py, p.block_positions.2))
    &&& b.valid_pos(cell_x(px, p.block_positions.3), cell_y(py, p.block_positions.3))
}

/// The falling piece and the grid cell its offsets are relative to.
#[derive(Clone, Copy, Debug)]
pub struct Player {
    /// The tetramino being controlled.
    pub tetramino: Tetramino,
    /// The grid position of the piece origin.
    pub position: GridPos,
}

impl Player {
    /// Pairs a tetramino with a position.
    pub fn new(tetramino: Tetramino, position: GridPos) -> (p: Player)
        ensures
            p.tetramino == tetramino,
            p.position == position,
    {
        Player { tetramino, position }
    }

    /// Whether every block of the player sits inside the side walls and not
    /// below the floor (occupancy aside).
    pub open spec fn in_walls(self, columns: int) -> bool {
        &&& 0 <= cell_x(self.position.x as int, self.tetramino.block_positions.0) < columns
        &&& 0 <= cell_x(self.position.x as int, self.tetramino.block_positions.1) < columns
        &&& 0 <= cell_x(self.position.x as int, self.tetramino.block_positions.2) < columns
        &&& 0 <= cell_x(self.position.x as int, self.tetramino.block_positions.3) < columns
        &&& 0 <= cell_y(self.position.y as int, self.tetramino.block_positions.0)
        &&& 0 <= cell_y(self.position.y as int, self.tetramino.block_positions.1)
        &&& 0 <= cell_y(self.position.y as int, self.tetramino.block_positions.2)
        &&& 0 <= cell_y(self.position.y as int, self.tetramino.block_positions.3)
    }
}

/// Floors a quarter-cell coordinate to whole cells: division by four
/// rounding toward negative infinity, never toward zero.
fn floor4(v: i16) -> (r: i16)
    requires
        -16000 <= v <= 16000,
    ensures
        r as int == (v as int) / 4,
{
    if v >= 0 {
        v / 4
    } else {
        -((-v + 3) / 4)
    }
}

/// Whether every block of piece `p` may sit on `board` with the piece
/// origin at `(px, py)`.
fn piece_fits_at(board: &Board, p: &Tetramino, px: i32, py: i32) -> (r: bool)
    requires
        board.wf(),
        p.wf(),
        -70000 <= px <= 70000,
        -70000 <= py <= 70000,
    ensures
        r == piece_fits(*board, *p, px as int, py as int),
{
    let (o0, o1, o2, o3) = p.block_positions;
    board.is_valid_at(px + floor4(o0.x) as i32, py + floor4(o0.y) as i32)
        && board.is_valid_at(px + floor4(o1.x) as i32, py + floor4(o1.y) as i32)
        && board.is_valid_at(px + floor4(o2.x) as i32, py + floor4(o2.y) as i32)
        && board.is_valid_at(px + floor4(o3.x) as i32, py + floor4(o3.y) as i32)
}

/// Saturating addition within `u64`.
pub open spec fn sat_add64(a: int, b: int) -> int {
    if a + b <= u64::MAX {
        a + b
    } else {
        u64::MAX as int
    }
}

/// Saturating addition within `u128`.
pub open spec fn sat_add128(a: int, b: int) -> int {
    if a + b <= u128::MAX {
        a + b
    } else {
        u128::MAX as int
    }
}

/// The state of active play.
pub struct LevelScene {
    /// The board stack.
    board: Board,
    /// The falling piece.
    player: Player,
    /// Microseconds accumulated since the last gravity step.
    time: u128,
    /// Microseconds between gravity steps.
    max_time: u128,
    /// The score.
    score: u64,
    /// The randomizer pieces are drawn from.
    bag: Bag,
    /// Set when a lock was a loss; the next update consumes it and asks for
    /// the home scene.
    loss: bool,
}

impl LevelScene {
    /// The board.
    pub closed spec fn spec_board(self) -> Board {
        self.board
    }

    /// The falling piece and its position.
    pub closed spec fn spec_player(self) -> Player {
        self.player
    }

    /// Microseconds accumulated since the last gravity step.
    pub closed spec fn spec_time(self) -> int {
        self.time as int
    }

    /// Microseconds between gravity steps.
    pub closed spec fn spec_max_time(self) -> int {
        self.max_time as int
    }

    /// The score.
    pub closed spec fn spec_score(self) -> int {
        self.score as int
    }

    /// The randomizer.
    pub closed spec fn spec_bag(self) -> Bag {
        self.bag
    }

    /// Whether the last lock was a loss, not yet consumed by an update.
    pub closed spec fn spec_loss(self) -> bool {
        self.loss
    }

    /// Well-formedness: the fixed 10 x 20 board and drop interval, a
    /// well-formed bag, and a well-formed falling piece whose blocks sit
    /// inside the side walls and above the floor.
    pub open spec fn wf(self) -> bool {
        &&& self.spec_board().wf()
        &&& self.spec_board().spec_columns() == 10
        &&& self.spec_board().spec_rows() == 20
        &&& self.spec_max_time() == 1000000
        &&& self.spec_bag().wf()
        &&& self.spec_player().tetramino.wf()
        &&& self.spec_player().in_walls(10)
        &&& -50 <= self.spec_player().position.x <= 50
    }

    /// The board, for reading.
    pub fn board(&self) -> (b: &Board)
        ensures
            b == self.spec_board(),
    {
        &self.board
    }

    /// The falling piece and its position, for reading.
    pub fn player(&self) -> (p: &Player)
        ensures
            p == self.spec_player(),
    {
        &self.player
    }

    /// The score.
    pub fn score(&self) -> (s: u64)
        ensures
            s == self.spec_score(),
    {
        self.score
    }

    /// Whether the last lock was a loss, not yet consumed by an update.
    pub fn lost(&self) -> (l: bool)
        ensures
            l == self.spec_loss(),
    {
        self.loss
    }

    /// The next three pieces the bag will hand out.
    pub fn next_tetraminos(&self) -> (r: Vec<Tetramino>)
        requires
            self.wf(),
        ensures
            r@ == self.spec_bag().upcoming().take(3),
    {
        self.bag.next_tetraminos()
    }

    /// Whether a block of the falling piece may sit at `pos`: false exactly
    /// when `pos` is outside the side walls, below the floor, or occupied.
    pub fn is_valid_player_position(&self, pos: GridPos) -> (r: bool)
        requires
            self.wf(),
        ensures
            r == self.spec_board().valid_pos(pos.x as int, pos.y as int),
    {
        self.board.is_valid(pos)
    }

    /// Replaces the falling piece with a fresh one from the bag, at the
    /// spawn position.
    fn respawn_player(&mut self)
        requires
            old(self).spec_bag().wf(),
            old(self).spec_board().wf(),
            old(self).spec_board().spec_columns() == 10,
            old(self).spec_board().spec_rows() == 20,
            old(self).spec_max_time() == 1000000,
        ensures
            final(self).wf(),
            final(self).spec_board() == old(self).spec_board(),
            final(self).spec_score() == old(self).spec_score(),
            final(self).spec_time() == old(self).spec_time(),
            final(self).spec_max_time() == old(self).spec_max_time(),
            final(self).spec_loss() == old(self).spec_loss(),
            is_catalog_piece(final(self).spec_player().tetramino),
            final(self).spec_player().position == (GridPos { x: 3, y: 19 }),
            final(self).spec_bag().popped() == old(self).spec_bag().popped().push(
                final(self).spec_player().tetramino,
            ),
    {
        let tetramino = self.bag.pop();
        proof {
            crate::piece::lemma_catalog_piece_offsets(tetramino);
        }
        let x: i16 = (self.board.columns() + 1) / 2 - 2;
        let y: i16 = self.board.rows() - 1;
        self.player = Player { tetramino, position: GridPos { x, y } };
    }

    /// A fresh level: empty 10 x 20 board, score zero, and a first piece
    /// drawn from a new bag at the spawn position.
    pub fn new() -> (s: LevelScene)
        ensures
            s.wf(),
            s.spec_board().grid() == Seq::<Seq<Option<Block>>>::empty(),
            s.spec_score() == 0,
            s.spec_time() == 0,
            s.spec_loss() == false,
            is_catalog_piece(s.spec_player().tetramino),
            s.spec_player().position == (GridPos { x: 3, y: 18 }),
            s.spec_bag().popped().len() == 1,
    {
        let board = Board::new(10, 20);
        let mut bag = Bag::new();
        let tetramino = bag.pop();
        proof {
            crate::piece::lemma_catalog_piece_offsets(tetramino);
        }
        let player = Player { tetramino, position: GridPos { x: 3, y: 18 } };
        LevelScene { board, player, time: 0, max_time: 1000000, score: 0, bag, loss: false }
    }

    /// Applies `delta` to the piece position when every block of the piece
    /// fits at the new position (and the new position is representable);
    /// otherwise changes nothing.  Returns whether the move happened.
    pub fn translate_player(&mut self, delta: GridPos) -> (moved: bool)
        requires
            old(self).wf(),
        ensures
            final(self).wf(),
            moved == (piece_fits(
                old(self).spec_board(),
                old(self).spec_player().tetramino,
                old(self).spec_player().position.x + delta.x,
                old(self).spec_player().position.y + delta.y,
            ) && -32768 <= old(self).spec_player().position.y + delta.y <= 32767),
            translate_rel(*old(self), *final(self), delta.x as int, delta.y as int),
    {
        let px = self.player.position.x as i32 + delta.x as i32;
        let py = self.player.position.y as i32 + delta.y as i32;
        let can_move = piece_fits_at(&self.board, &self.player.tetramino, px, py) && py >= -32768
            && py <= 32767;
        if can_move {
            self.player.position = GridPos { x: px as i16, y: py as i16 };
        }
        can_move
    }

    /// Rotates the falling piece a quarter turn clockwise about its centroid
    /// when every rotated block fits at the current position; otherwise
    /// leaves the offsets unchanged.
    pub fn rotate_player(&mut self)
        requires
            old(self).wf(),
        ensures
            final(self).wf(),
            rotate_rel(*old(self), *final(self)),
    {
        let rotated = self.player.tetramino.rotated();
        let can_rotate = piece_fits_at(
            &self.board,
            &rotated,
            self.player.position.x as i32,
            self.player.position.y as i32,
        );
        if can_rotate {
            self.player.tetramino = rotated;
        }
    }

    /// Clears the board, resets the score, and hands control to a fresh
    /// piece; the drop timer and the loss flag stay as they are.
    pub fn restart(&mut self)
        requires
            old(self).wf(),
        ensures
            final(self).wf(),
            final(self).spec_board().grid() == Seq::<Seq<Option<Block>>>::empty(),
            final(self).spec_score() == 0,
            final(self).spec_time() == old(self).spec_time(),
            final(self).spec_loss() == old(self).spec_loss(),
            is_catalog_piece(final(self).spec_player().tetramino),
            final(self).spec_player().position == (GridPos { x: 3, y: 19 }),
            final(self).spec_bag().popped() == old(self).spec_bag().popped().push(
                final(self).spec_player().tetramino,
            ),
    {
        self.board.clear();
        self.score = 0;
        self.respawn_player();
    }

    /// Appends the background square of every grid cell to the canvas,
    /// column by column.
    fn render_background(canvas: &mut Canvas)
        ensures
            final(canvas).log() == old(canvas).log() + background_draws(),
    {
        let ghost base = canvas.log();
        let mut i: i16 = 0;
        while i < 10
            invariant
                0 <= i <= 10,
                canvas.log() == base + background_draws().take(20 * i),
            decreases 10 - i,
        {
            let mut j: i16 = 0;
            while j < 20
                invariant
                    0 <= i < 10,
                    0 <= j <= 20,
                    canvas.log() == base + background_draws().take(20 * i + j),
                decreases 20 - j,
            {
                canvas.draw(
                    DrawRequest::SolidRect {
                        region: Rect {
                            center: Vector2 {
                                x: 20 * (i as i32) + 10,
                                y: 20 * (j as i32) + 10,
                            },
                            size: Vector2 { x: 18, y: 18 },
                        },
                        color: Rgb { r: 64, g: 64, b: 64 },
                    },
                );
                proof {
                    assert(background_draws()[20 * i + j] == background_draw(i as int, j as int));
                    assert(canvas.log() =~= base + background_draws().take(20 * i + j + 1));
                }
                j = j + 1;
            }
            i = i + 1;
        }
        proof {
            assert(background_draws().take(200) =~= background_draws());
        }
    }

    /// Appends a square for every occupied stack cell to the canvas, bottom
    /// row first, each row left to right.
    fn render_stack(&self, canvas: &mut Canvas)
        requires
            self.wf(),
        ensures
            final(canvas).log() == old(canvas).log() + stack_draws(
                self.spec_board().grid(),
                self.spec_board().grid().len() as int,
            ),
    {
        let ghost base2 = canvas.log();
        let ghost g = self.spec_board().grid();
        let rows = self.board.row_count();
        let mut y: usize = 0;
        while y < rows
            invariant
                self.wf(),
                rows == g.len(),
                g == self.spec_board().grid(),
                0 <= y <= rows,
                canvas.log() == base2 + stack_draws(g, y as int),
            decreases rows - y,
        {
            let mut x: i16 = 0;
            while x < 10
                invariant
                    self.wf(),
                    rows == g.len(),
                    g == self.spec_board().grid(),
                    0 <= y < rows,
                    0 <= x <= 10,
                    canvas.log() == base2 + stack_draws(g, y as int) + row_draws(
                        g[y as int],
                        y as int,
                        x as int,
                    ),
                decreases 10 - x,
            {
                let cell = self.board.cell(GridPos { x, y: y as i16 });
                if let Some(b) = cell {
                    canvas.draw(
                        DrawRequest::SolidRect {
                            region: Rect {
                                center: Vector2 {
                                    x: 20 * (x as i32) + 10,
                                    y: 20 * (y as i32) + 10,
                                },
                                size: Vector2 { x: 20, y: 20 },
                            },
                            color: b.color,
                        },
                    );
                }
                proof {
                    assert(canvas.log() =~= base2 + stack_draws(g, y as int) + row_draws(
                        g[y as int],
                        y as int,
                        x as int + 1,
                    ));
                }
                x = x + 1;
            }
            proof {
                assert(g[y as int].len() == 10);
                assert(canvas.log() =~= base2 + stack_draws(g, y as int + 1));
            }
            y = y + 1;
        }
    }

    /// Appends everything one update draws to the canvas: background grid,
    /// stack, score and preview texts, upcoming pieces, falling piece.
    #[verifier::rlimit(100)]
    pub fn render(&self, canvas: &mut Canvas)
        requires
            self.wf(),
        ensures
            final(canvas).log() == old(canvas).log() + level_draws(*self),
    {
        Self::render_background(canvas);
        self.render_stack(canvas);
        canvas.draw(
            DrawRequest::Text {
                position: Vector2 { x: 208, y: 400 },
                color: Rgb { r: 255, g: 255, b: 255 },
                font_size: 20,
                content: TextContent::Score(self.score),
            },
        );
        canvas.draw(
            DrawRequest::Text {
                position: Vector2 { x: 208, y: 320 },
                color: Rgb { r: 255, g: 255, b: 255 },
                font_size: 20,
                content: TextContent::NextHeader,
            },
        );
        let nexts = self.bag.next_tetraminos();
        proof {
            assert(nexts@[0] == self.spec_bag().upcoming()[0]);
            assert(nexts@[1] == self.spec_bag().upcoming()[1]);
            assert(nexts@[2] == self.spec_bag().upcoming()[2]);
            crate::piece::lemma_catalog_piece_wf(nexts@[0]);
            crate::piece::lemma_catalog_piece_wf(nexts@[1]);
            crate::piece::lemma_catalog_piece_wf(nexts@[2]);
        }
        draw_tetramino(canvas, &nexts[0], 0, 0, 208, 200);
        draw_tetramino(canvas, &nexts[1], 0, 0, 208, 140);
        draw_tetramino(canvas, &nexts[2], 0, 0, 208, 80);
        draw_tetramino(
            canvas,
            &self.player.tetramino,
            self.player.position.x as i32,
            self.player.position.y as i32,
            0,
            0,
        );
        proof {
            assert(canvas.log() =~= old(canvas).log() + level_draws(*self));
        }
    }

    /// Locks the falling piece: a piece with any block at or above the
    /// playable height is a loss (board and score reset, the loss flag
    /// raised); otherwise its blocks are written into the stack and every
    /// full row is removed, with a fixed bonus per cleared row.  Either way
    /// a fresh piece takes over.
    #[verifier::rlimit(60)]
    pub fn add_player_to_stack(&mut self)
        requires
            old(self).wf(),
        ensures
            final(self).wf(),
            lock_outcome(
                old(self).spec_board().grid(),
                old(self).spec_player().tetramino,
                old(self).spec_player().position.x as int,
                old(self).spec_player().position.y as int,
                old(self).spec_score(),
                old(self).spec_loss(),
                old(self).spec_bag().popped(),
                *final(self),
            ),
            final(self).spec_time() == old(self).spec_time(),
    {
        let px = self.player.position.x;
        let py = self.player.position.y;
        let (o0, o1, o2, o3) = self.player.tetramino.block_positions;
        let cx0 = px as i32 + floor4(o0.x) as i32;
        let cx1 = px as i32 + floor4(o1.x) as i32;
        let cx2 = px as i32 + floor4(o2.x) as i32;
        let cx3 = px as i32 + floor4(o3.x) as i32;
        let cy0 = py as i32 + floor4(o0.y) as i32;
        let cy1 = py as i32 + floor4(o1.y) as i32;
        let cy2 = py as i32 + floor4(o2.y) as i32;
        let cy3 = py as i32 + floor4(o3.y) as i32;
        proof {
            assert(cx0 == cell_x(px as int, o0) && cy0 == cell_y(py as int, o0));
            assert(cx1 == cell_x(px as int, o1) && cy1 == cell_y(py as int, o1));
            assert(cx2 == cell_x(px as int, o2) && cy2 == cell_y(py as int, o2));
            assert(cx3 == cell_x(px as int, o3) && cy3 == cell_y(py as int, o3));
        }
        let mut max_height = cy0;
        if cy1 > max_height {
            max_height = cy1;
        }
        if cy2 > max_height {
            max_height = cy2;
        }
        if cy3 > max_height {
            max_height = cy3;
        }
        proof {
            assert(max_height == max4(
                cell_y(py as int, o0),
                cell_y(py as int, o1),
                cell_y(py as int, o2),
                cell_y(py as int, o3),
            ));
        }
        if max_height >= 20 {
            self.restart();
            self.loss = true;
            return;
        }
        let c0 = GridPos { x: cx0 as i16, y: cy0 as i16 };
        let c1 = GridPos { x: cx1 as i16, y: cy1 as i16 };
        let c2 = GridPos { x: cx2 as i16, y: cy2 as i16 };
        let c3 = GridPos { x: cx3 as i16, y: cy3 as i16 };
        proof {
            assert(c0 == lock_cell(px as int, py as int, o0));
            assert(c1 == lock_cell(px as int, py as int, o1));
            assert(c2 == lock_cell(px as int, py as int, o2));
            assert(c3 == lock_cell(px as int, py as int, o3));
        }
        let color = self.player.tetramino.color;
        let ghost locked = locked_grid(
            self.spec_board().grid(),
            c0,
            c1,
            c2,
            c3,
            Block { color },
            10,
        );
        self.board.place(c0, c1, c2, c3, Block { color });
        proof {
            assert(self.spec_board().grid() == locked);
        }
        self.respawn_player();
        let n = self.board.clear_full_rows();
        proof {
            crate::board::lemma_cleared_len(locked);
            assert(n == num_full(locked));
            assert(n <= 20);
        }
        let bonus: u64 = (n as u64) * 100;
        self.score = if self.score > u64::MAX - bonus {
            u64::MAX
        } else {
            self.score + bonus
        };
        proof {
            assert(self.spec_score() == sat_add64(old(self).spec_score(), 100 * num_full(locked)));
        }
    }
}

/// Everything one update draws, in order: the background grid, the occupied
/// stack cells, the score line and preview heading, the three upcoming
/// pieces, and the falling piece.
pub open spec fn level_draws(s: LevelScene) -> Seq<DrawRequest> {
    let g = s.spec_board().grid();
    let up = s.spec_bag().upcoming();
    background_draws() + stack_draws(g, g.len() as int) + seq![
        score_draw(s.spec_score()),
        next_header_draw(),
    ] + tetramino_draws(up[0], 0, 0, 208, 200) + tetramino_draws(up[1], 0, 0, 208, 140)
        + tetramino_draws(up[2], 0, 0, 208, 80) + tetramino_draws(
        s.spec_player().tetramino,
        s.spec_player().position.x as int,
        s.spec_player().position.y as int,
        0,
        0,
    )
}

/// Appends the four squares of a tetramino to the canvas.
fn draw_tetramino(canvas: &mut Canvas, p: &Tetramino, px: i32, py: i32, bx: i32, by: i32)
    requires
        p.wf(),
        -40000 <= px <= 40000,
        -40000 <= py <= 40000,
        -1000 <= bx <= 1000,
        -1000 <= by <= 1000,
    ensures
        final(canvas).log() == old(canvas).log() + tetramino_draws(*p, px as int, py as int, bx as int, by as int),
{
    let (o0, o1, o2, o3) = p.block_positions;
    let color = p.color;
    canvas.draw(
        DrawRequest::SolidRect {
            region: Rect {
                center: Vector2 {
                    x: 20 * (px + floor4(o0.x) as i32) + 10 + bx,
                    y: 20 * (py + floor4(o0.y) as i32) + 10 + by,
                },
                size: Vector2 { x: 20, y: 20 },
            },
            color,
        },
    );
    canvas.draw(
        DrawRequest::SolidRect {
            region: Rect {
                center: Vector2 {
                    x: 20 * (px + floor4(o1.x) as i32) + 10 + bx,
                    y: 20 * (py + floor4(o1.y) as i32) + 10 + by,
                },
                size: Vector2 { x: 20, y: 20 },
            },
            color,
        },
    );
    canvas.draw(
        DrawRequest::SolidRect {
            region: Rect {
                center: Vector2 {
                    x: 20 * (px + floor4(o2.x) as i32) + 10 + bx,
                    y: 20 * (py + floor4(o2.y) as i32) + 10 + by,
                },
                size: Vector2 { x: 20, y: 20 },
            },
            color,
        },
    );
    canvas.draw(
        DrawRequest::SolidRect {
            region: Rect {
                center: Vector2 {
                    x: 20 * (px + floor4(o3.x) as i32) + 10 + bx,
                    y: 20 * (py + floor4(o3.y) as i32) + 10 + by,
                },
                size: Vector2 { x: 20, y: 20 },
            },
            color,
        },
    );
    proof {
        assert(canvas.log() =~= old(canvas).log() + tetramino_draws(
            *p,
            px as int,
            py as int,
            bx as int,
            by as int,
        ));
    }
}

impl LevelScene {
    /// Replaces the falling piece wholesale: the deterministic way for a
    /// caller to stage a chosen piece at a chosen position.
    pub fn set_player(&mut self, player: Player)
        requires
            old(self).wf(),
            player.tetramino.wf(),
            player.in_walls(10),
            -50 <= player.position.x <= 50,
        ensures
            final(self).wf(),
            final(self).spec_player() == player,
            final(self).spec_board() == old(self).spec_board(),
            final(self).spec_bag() == old(self).spec_bag(),
            final(self).spec_score() == old(self).spec_score(),
            final(self).spec_time() == old(self).spec_time(),
            final(self).spec_max_time() == old(self).spec_max_time(),
            final(self).spec_loss() == old(self).spec_loss(),
    {
        self.player = player;
    }

    /// Hard drop: moves the piece down one cell at a time until it no
    /// longer fits, credits two points per cell fallen, and locks it there.
    #[verifier::rlimit(100)]
    pub fn move_to_end(&mut self)
        requires
            old(self).wf(),
        ensures
            final(self).wf(),
            hard_drop_rel(*old(self), *final(self)),
            final(self).spec_time() == old(self).spec_time(),
    {
        let ghost pre = *self;
        let mut i: u32 = 0;
        let mut resting = false;
        while !resting
            invariant
                self.wf(),
                self.spec_board() == pre.spec_board(),
                self.spec_bag() == pre.spec_bag(),
                self.spec_score() == pre.spec_score(),
                self.spec_time() == pre.spec_time(),
                self.spec_max_time() == pre.spec_max_time(),
                self.spec_loss() == pre.spec_loss(),
                self.spec_player().tetramino == pre.spec_player().tetramino,
                self.spec_player().position.x == pre.spec_player().position.x,
                i == pre.spec_player().position.y - self.spec_player().position.y,
                forall|j: int|
                    1 <= j <= i ==> piece_fits(
                        pre.spec_board(),
                        pre.spec_player().tetramino,
                        pre.spec_player().position.x as int,
                        #[trigger] (pre.spec_player().position.y - j),
                    ),
                resting ==> !piece_fits(
                    pre.spec_board(),
                    pre.spec_player().tetramino,
                    pre.spec_player().position.x as int,
                    pre.spec_player().position.y - i - 1,
                ),
            decreases self.spec_player().position.y + 33 + (if resting {
                0int
            } else {
                1int
            }),
        {
            let moved = self.translate_player(GridPos { x: 0, y: -1 });
            if moved {
                i = i + 1;
            } else {
                resting = true;
            }
        }
        let bonus: u64 = (i as u64) * 2;
        self.score = if self.score > u64::MAX - bonus {
            u64::MAX
        } else {
            self.score + bonus
        };
        proof {
            assert(self.spec_score() == sat_add64(pre.spec_score(), 2 * i));
        }
        let ghost locked_at = *self;
        self.add_player_to_stack();
        proof {
            let n = i as int;
            let px = pre.spec_player().position.x as int;
            let py = pre.spec_player().position.y as int;
            let p = pre.spec_player().tetramino;
            assert(!piece_fits(pre.spec_board(), p, px, py - n - 1));
            assert(lock_outcome(
                pre.spec_board().grid(),
                p,
                px,
                py - n,
                sat_add64(pre.spec_score(), 2 * n),
                pre.spec_loss(),
                pre.spec_bag().popped(),
                *self,
            ));
            assert(hard_drop_rel(pre, *self));
        }
    }

    /// Handles one key press and returns the scene that should be active
    /// afterwards (always the level itself): rotate, hard drop, soft drop,
    /// shift left and right, free rise, restart; any other key does
    /// nothing.
    pub fn key_down(&mut self, key: Key) -> (s: Scene)
        requires
            old(self).wf(),
        ensures
            final(self).wf(),
            s == Scene::LevelScene,
            level_key_rel(*old(self), *final(self), key),
    {
        match key {
            Key::Up => {
                self.rotate_player();
            },
            Key::Space => self.move_to_end(),
            Key::Down => {
                self.translate_player(GridPos { x: 0, y: -1 });
            },
            Key::W => {
                if self.player.position.y < 30000 {
                    self.player.position.y = self.player.position.y + 1;
                }
            },
            Key::Right => {
                self.translate_player(GridPos { x: 1, y: 0 });
            },
            Key::Left => {
                self.translate_player(GridPos { x: -1, y: 0 });
            },
            Key::R => self.restart(),
            _ => (),
        }
        Scene::LevelScene
    }

    /// A click inside the level does nothing.
    pub fn on_click(&mut self, position: Vector2) -> (s: Scene)
        requires
            old(self).wf(),
        ensures
            final(self).wf(),
            s == Scene::LevelScene,
            *final(self) == *old(self),
    {
        let _ = position;
        Scene::LevelScene
    }

    /// The region of the world the level wants framed: a rectangle sized to
    /// the board (columns by rows of cells, 50 x 100 world units), centered
    /// on the board.
    pub fn world_region(&self) -> (r: Rect)
        requires
            self.wf(),
        ensures
            r == (Rect {
                center: Vector2 { x: 100, y: 200 },
                size: Vector2 { x: 200, y: 400 },
            }),
    {
        Rect { center: Vector2 { x: 100, y: 200 }, size: Vector2 { x: 200, y: 400 } }
    }

    /// Advances the simulation by `delta_t` microseconds and draws the
    /// scene.  A pending loss is consumed first: the scene asks for the
    /// home screen and nothing else happens.  Otherwise the scene is drawn,
    /// and one gravity step (move down or lock) runs for every full drop
    /// interval the accumulator now covers; the surplus stays accumulated.
    #[verifier::rlimit(100)]
    pub fn update(&mut self, canvas: &mut Canvas, delta_t: u128) -> (s: Scene)
        requires
            old(self).wf(),
        ensures
            final(self).wf(),
            level_update_rel(
                *old(self),
                *final(self),
                old(canvas).log(),
                final(canvas).log(),
                delta_t,
                s,
            ),
    {
        if self.loss {
            self.loss = false;
            return Scene::HomeScene;
        }
        self.render(canvas);
        let total: u128 = if delta_t > u128::MAX - self.time {
            u128::MAX
        } else {
            self.time + delta_t
        };
        let ghost steps = total as int / 1000000;
        let ghost s0 = *self;
        let ghost j: int = 0;
        let mut jj = Ghost(j);
        let ghost c: Seq<LevelScene> = seq![s0];
        let mut cc = Ghost(c);
        let mut remaining: u128 = total;
        while remaining >= 1000000
            invariant
                self.wf(),
                0 <= jj@,
                remaining == total as int - jj@ * 1000000,
                self.spec_time() == s0.spec_time(),
                jj@ == 0 ==> *self == s0,
                steps == 1 && jj@ == 1 ==> gravity_step_rel(s0, *self),
                cc@.len() == jj@ + 1,
                cc@[0] == s0,
                cc@[cc@.len() - 1] == *self,
                forall|i: int|
                    0 <= i < jj@ ==> #[trigger] gravity_step_rel(cc@[i], cc@[i + 1]),
            decreases remaining,
        {
            let ghost before = *self;
            let moved = self.translate_player(GridPos { x: 0, y: -1 });
            if !moved {
                self.add_player_to_stack();
            }
            remaining = remaining - 1000000;
            proof {
                jj@ = jj@ + 1;
                cc@ = cc@.push(*self);
                assert(gravity_step_rel(before, *self));
                assert(cc@[jj@ - 1] == before);
            }
        }
        proof {
            vstd::arithmetic::div_mod::lemma_fundamental_div_mod_converse(
                total as int,
                1000000,
                jj@,
                remaining as int,
            );
            assert(remaining == total as int % 1000000);
            assert(jj@ == total as int / 1000000);
        }
        let ghost prewrite = *self;
        self.time = remaining;
        proof {
            assert(cc@[cc@.len() - 1] == prewrite);
            assert(same_but_time(prewrite, *self));
            assert(gravity_chain(s0, *self, cc@));
            assert(gravity_steps_rel(s0, *self, steps));
        }
        Scene::LevelScene
    }

}

/// How a successful or refused translation relates the scene before and
/// after: on success only the piece position changes, by exactly `(dx, dy)`;
/// on refusal nothing changes.
pub open spec fn translate_rel(pre: LevelScene, post: LevelScene, dx: int, dy: int) -> bool {
    let px = pre.spec_player().position.x as int;
    let py = pre.spec_player().position.y as int;
    let can = piece_fits(pre.spec_board(), pre.spec_player().tetramino, px + dx, py + dy)
        && -32768 <= py + dy <= 32767;
    if can {
        &&& post.spec_player().tetramino == pre.spec_player().tetramino
        &&& post.spec_player().position.x == px + dx
        &&& post.spec_player().position.y == py + dy
        &&& post.spec_board() == pre.spec_board()
        &&& post.spec_bag() == pre.spec_bag()
        &&& post.spec_score() == pre.spec_score()
        &&& post.spec_time() == pre.spec_time()
        &&& post.spec_max_time() == pre.spec_max_time()
        &&& post.spec_loss() == pre.spec_loss()
    } else {
        post == pre
    }
}

/// How a rotation attempt relates the scene before and after: the piece
/// offsets become the rotated ones exactly when every rotated block fits at
/// the current position; otherwise nothing changes.
pub open spec fn rotate_rel(pre: LevelScene, post: LevelScene) -> bool {
    let px = pre.spec_player().position.x as int;
    let py = pre.spec_player().position.y as int;
    let rotated = pre.spec_player().tetramino.spec_rotated();
    if piece_fits(pre.spec_board(), rotated, px, py) {
        &&& post.spec_player().tetramino == rotated
        &&& post.spec_player().position == pre.spec_player().position
        &&& post.spec_board() == pre.spec_board()
        &&& post.spec_bag() == pre.spec_bag()
        &&& post.spec_score() == pre.spec_score()
        &&& post.spec_time() == pre.spec_time()
        &&& post.spec_max_time() == pre.spec_max_time()
        &&& post.spec_loss() == pre.spec_loss()
    } else {
        post == pre
    }
}

/// Four rotation attempts in a row, each accepted (the rotated piece fits
/// every time: an unobstructed piece), return the falling piece to its
/// original offsets and leave everything else as it was.
pub proof fn lemma_four_rotations_unobstructed(
    s0: LevelScene,
    s1: LevelScene,
    s2: LevelScene,
    s3: LevelScene,
    s4: LevelScene,
)
    requires
        s0.wf(),
        rotate_rel(s0, s1),
        rotate_rel(s1, s2),
        rotate_rel(s2, s3),
        rotate_rel(s3, s4),
        piece_fits(
            s0.spec_board(),
            s0.spec_player().tetramino.spec_rotated(),
            s0.spec_player().position.x as int,
            s0.spec_player().position.y as int,
        ),
        piece_fits(
            s1.spec_board(),
            s1.spec_player().tetramino.spec_rotated(),
            s1.spec_player().position.x as int,
            s1.spec_player().position.y as int,
        ),
        piece_fits(
            s2.spec_board(),
            s2.spec_player().tetramino.spec_rotated(),
            s2.spec_player().position.x as int,
            s2.spec_player().position.y as int,
        ),
        piece_fits(
            s3.spec_board(),
            s3.spec_player().tetramino.spec_rotated(),
            s3.spec_player().position.x as int,
            s3.spec_player().position.y as int,
        ),
    ensures
        s4.spec_player() == s0.spec_player(),
        s4.spec_board() == s0.spec_board(),
        s4.spec_score() == s0.spec_score(),
        s4.spec_loss() == s0.spec_loss(),
{
    crate::piece::lemma_rotation_cycle(s0.spec_player().tetramino);
}

/// How a restart relates pre and post: empty board, score zero, a fresh
/// catalog piece at the spawn position; the drop timer and loss flag stay.
pub open spec fn restart_rel(pre: LevelScene, post: LevelScene) -> bool {
    &&& post.spec_board().grid() == Seq::<Seq<Option<Block>>>::empty()
    &&& post.spec_score() == 0
    &&& post.spec_time() == pre.spec_time()
    &&& post.spec_loss() == pre.spec_loss()
    &&& is_catalog_piece(post.spec_player().tetramino)
    &&& post.spec_player().position == (GridPos { x: 3, y: 19 })
    &&& post.spec_bag().popped() == pre.spec_bag().popped().push(
        post.spec_player().tetramino,
    )
}

/// How the free-rise nudge relates pre and post: the piece moves one row up
/// (saturating far above the playable area); nothing else changes.
pub open spec fn free_rise_rel(pre: LevelScene, post: LevelScene) -> bool {
    &&& post.spec_player().tetramino == pre.spec_player().tetramino
    &&& post.spec_player().position.x == pre.spec_player().position.x
    &&& post.spec_player().position.y == (if pre.spec_player().position.y < 30000 {
        pre.spec_player().position.y + 1
    } else {
        pre.spec_player().position.y as int
    })
    &&& post.spec_board() == pre.spec_board()
    &&& post.spec_bag() == pre.spec_bag()
    &&& post.spec_score() == pre.spec_score()
    &&& post.spec_time() == pre.spec_time()
    &&& post.spec_max_time() == pre.spec_max_time()
    &&& post.spec_loss() == pre.spec_loss()
}

/// How a hard drop relates pre and post: the piece fell `n` cells to the
/// position where it rests (one more cell down does not fit), each fallen
/// cell earned two points, and the piece was locked there.
pub open spec fn hard_drop_rel(pre: LevelScene, post: LevelScene) -> bool {
    let px = pre.spec_player().position.x as int;
    let py = pre.spec_player().position.y as int;
    let p = pre.spec_player().tetramino;
    exists|n: int|
        {
            &&& 0 <= n
            &&& forall|j: int|
                1 <= j <= n ==> piece_fits(pre.spec_board(), p, px, #[trigger] (py - j))
            &&& !piece_fits(pre.spec_board(), p, px, py - n - 1)
            &&& #[trigger] lock_outcome(
                pre.spec_board().grid(),
                p,
                px,
                py - n,
                sat_add64(pre.spec_score(), 2 * n),
                pre.spec_loss(),
                pre.spec_bag().popped(),
                post,
            )
        }
}

/// How one gravity step relates pre and post: the piece moves one cell down
/// when it fits there, and locks where it stands otherwise.  Says nothing
/// about the drop timer.
pub open spec fn gravity_step_rel(pre: LevelScene, post: LevelScene) -> bool {
    let px = pre.spec_player().position.x as int;
    let py = pre.spec_player().position.y as int;
    let p = pre.spec_player().tetramino;
    if piece_fits(pre.spec_board(), p, px, py - 1) {
        &&& post.spec_player().tetramino == p
        &&& post.spec_player().position.x == px
        &&& post.spec_player().position.y == py - 1
        &&& post.spec_board() == pre.spec_board()
        &&& post.spec_bag() == pre.spec_bag()
        &&& post.spec_score() == pre.spec_score()
        &&& post.spec_loss() == pre.spec_loss()
    } else {
        lock_outcome(
            pre.spec_board().grid(),
            p,
            px,
            py,
            pre.spec_score(),
            pre.spec_loss(),
            pre.spec_bag().popped(),
            post,
        )
    }
}

/// Whether two level scenes agree on everything but the drop timer.
pub open spec fn same_but_time(a: LevelScene, b: LevelScene) -> bool {
    &&& b.spec_board() == a.spec_board()
    &&& b.spec_player() == a.spec_player()
    &&& b.spec_bag() == a.spec_bag()
    &&& b.spec_score() == a.spec_score()
    &&& b.spec_loss() == a.spec_loss()
}

/// Whether `chain` carries `pre` to `post`: its first element agrees with
/// `pre` and its last with `post` (timer aside), and each later element is
/// one gravity step from the one before, tested against the board of its
/// own moment.
pub open spec fn gravity_chain(pre: LevelScene, post: LevelScene, chain: Seq<LevelScene>) -> bool {
    &&& chain.len() >= 1
    &&& same_but_time(pre, chain[0])
    &&& same_but_time(chain[chain.len() - 1], post)
    &&& forall|i: int|
        0 <= i < chain.len() - 1 ==> #[trigger] gravity_step_rel(chain[i], chain[i + 1])
}

/// How `n` gravity steps in a row relate pre and post, timer aside: some
/// chain of `n + 1` scenes carries one to the other.
pub open spec fn gravity_steps_rel(pre: LevelScene, post: LevelScene, n: int) -> bool {
    exists|chain: Seq<LevelScene>|
        chain.len() == n + 1 && #[trigger] gravity_chain(pre, post, chain)
}

/// How one key press relates the level before and after: rotate, soft
/// drop, shift, free rise, hard drop, restart; any other key does nothing.
pub open spec fn level_key_rel(pre: LevelScene, post: LevelScene, key: Key) -> bool {
    &&& (key == Key::Up ==> rotate_rel(pre, post))
    &&& (key == Key::Down ==> translate_rel(pre, post, 0, -1))
    &&& (key == Key::Right ==> translate_rel(pre, post, 1, 0))
    &&& (key == Key::Left ==> translate_rel(pre, post, -1, 0))
    &&& (key == Key::W ==> free_rise_rel(pre, post))
    &&& (key == Key::Space ==> hard_drop_rel(pre, post) && post.spec_time() == pre.spec_time())
    &&& (key == Key::R ==> restart_rel(pre, post))
    &&& (!(key == Key::Up || key == Key::Down || key == Key::Right || key == Key::Left
        || key == Key::W || key == Key::Space || key == Key::R) ==> post == pre)
}

/// How one update relates the level before and after.  A pending loss is
/// consumed: the level asks for the home scene and nothing else happens.
/// Otherwise the level is drawn and one gravity step runs for every full
/// drop interval the accumulator now covers (so a long stall cannot let a
/// piece skip through the stack); the surplus stays accumulated.
pub open spec fn level_update_rel(
    pre: LevelScene,
    post: LevelScene,
    log0: Seq<DrawRequest>,
    log1: Seq<DrawRequest>,
    delta_t: u128,
    s: Scene,
) -> bool {
    &&& (pre.spec_loss() ==> {
        &&& s == Scene::HomeScene
        &&& post.spec_loss() == false
        &&& post.spec_board() == pre.spec_board()
        &&& post.spec_player() == pre.spec_player()
        &&& post.spec_bag() == pre.spec_bag()
        &&& post.spec_score() == pre.spec_score()
        &&& post.spec_time() == pre.spec_time()
        &&& log1 == log0
    })
    &&& (!pre.spec_loss() ==> {
        let total = sat_add128(pre.spec_time(), delta_t as int);
        &&& s == Scene::LevelScene
        &&& log1 == log0 + level_draws(pre)
        &&& post.spec_time() == total % 1000000
        &&& (total / 1000000 == 0 ==> {
            &&& post.spec_board() == pre.spec_board()
            &&& post.spec_player() == pre.spec_player()
            &&& post.spec_bag() == pre.spec_bag()
            &&& post.spec_score() == pre.spec_score()
            &&& post.spec_loss() == pre.spec_loss()
        })
        &&& (total / 1000000 == 1 ==> gravity_step_rel(pre, post))
        &&& gravity_steps_rel(pre, post, total / 1000000)
    })
}

/// The grid cell of the block with offset `o` for a piece locked at
/// `(px, py)`.
pub open spec fn lock_cell(px: int, py: int, o: Offset) -> GridPos {
    GridPos { x: cell_x(px, o) as i16, y: cell_y(py, o) as i16 }
}

/// What locking a piece at `(px, py)` does to a scene whose board grid was
/// `g`, score `score0`, loss flag `loss0` and bag history `popped0`.  With
/// any block at or above the playable height the lock is a loss: board
/// cleared, score reset, the loss flag raised.  Otherwise the four blocks
/// are written (growing the stack as needed), every full row is removed and
/// each earns a bonus of 100.  Either way a fresh catalog piece spawns and
/// the bag history grows by exactly that piece.
pub open spec fn lock_outcome(
    g: Seq<Seq<Option<Block>>>,
    p: Tetramino,
    px: int,
    py: int,
    score0: int,
    loss0: bool,
    popped0: Seq<Tetramino>,
    post: LevelScene,
) -> bool {
    let c0 = lock_cell(px, py, p.block_positions.0);
    let c1 = lock_cell(px, py, p.block_positions.1);
    let c2 = lock_cell(px, py, p.block_positions.2);
    let c3 = lock_cell(px, py, p.block_positions.3);
    let max_height = max4(
        cell_y(py, p.block_positions.0),
        cell_y(py, p.block_positions.1),
        cell_y(py, p.block_positions.2),
        cell_y(py, p.block_positions.3),
    );
    &&& (if max_height >= 20 {
        &&& post.spec_loss() == true
        &&& post.spec_board().grid() == Seq::<Seq<Option<Block>>>::empty()
        &&& post.spec_score() == 0
    } else {
        let locked = locked_grid(g, c0, c1, c2, c3, Block { color: p.color }, 10);
        &&& post.spec_loss() == loss0
        &&& post.spec_board().grid() == cleared_rows(locked)
        &&& post.spec_score() == sat_add64(score0, 100 * num_full(locked))
    })
    &&& is_catalog_piece(post.spec_player().tetramino)
    &&& post.spec_player().position == (GridPos { x: 3, y: 19 })
    &&& post.spec_bag().popped() == popped0.push(post.spec_player().tetramino)
}

} // verus!
