//! The board: a variable-height stack of rows of optional blocks.
//!
//! Rows are kept bottom first and appended lazily as pieces lock above the
//! current height; a fully occupied row is removed from the stack, which
//! shifts every row above it down by one index.  Collision testing places no
//! upper bound on the row index: the stack may grow upward, and the loss
//! condition is the locking code's separate test.

use vstd::prelude::*;
use crate::rgb::Rgb;
use crate::GridPos;

verus! {

/// A single locked cell in the board stack.
#[derive(Clone, Copy, Debug, PartialEq, Eq, Structural)]
pub struct Block {
    /// The color of the block.
    pub color: Rgb,
}

/// Whether every column of `row` is occupied.
pub open spec fn row_full(row: Seq<Option<Block>>) -> bool {
    forall|x: int| 0 <= x < row.len() ==> row[x] is Some
}

/// An empty row of `columns` cells.
pub open spec fn empty_row(columns: int) -> Seq<Option<Block>> {
    Seq::new(columns as nat, |x: int| None::<Block>)
}

/// The rows that survive a clearing pass: the rows that are not full, in
/// their original order.
pub open spec fn cleared_rows(g: Seq<Seq<Option<Block>>>) -> Seq<Seq<Option<Block>>> {
    g.filter(|row: Seq<Option<Block>>| !row_full(row))
}

/// How many rows of `g` are full.
pub open spec fn num_full(g: Seq<Seq<Option<Block>>>) -> int
    decreases g.len(),
{
    if g.len() == 0 {
        0
    } else {
        num_full(g.drop_last()) + if row_full(g.last()) {
            1int
        } else {
            0int
        }
    }
}

/// Clearing removes exactly the full rows: the count of surviving rows.
pub proof fn lemma_cleared_len(g: Seq<Seq<Option<Block>>>)
    ensures
        cleared_rows(g).len() == g.len() - num_full(g),
        0 <= num_full(g) <= g.len(),
    decreases g.len(),
{
    reveal(Seq::filter);
    if g.len() > 0 {
        lemma_cleared_len(g.drop_last());
    }
}

/// A grid in which no row is full survives a clearing pass unchanged.
pub proof fn lemma_cleared_no_full(g: Seq<Seq<Option<Block>>>)
    requires
        forall|j: int| 0 <= j < g.len() ==> !row_full(#[trigger] g[j]),
    ensures
        cleared_rows(g) == g,
    decreases g.len(),
{
    reveal(Seq::filter);
    if g.len() > 0 {
        lemma_cleared_no_full(g.drop_last());
        assert(!row_full(g.last()));
        assert(cleared_rows(g) =~= g);
    }
}

/// Clearing a grid whose only full row is row `i` removes exactly that row,
/// shifting every row above it down by one index.
pub proof fn lemma_single_full_row(g: Seq<Seq<Option<Block>>>, i: int)
    requires
        0 <= i < g.len(),
        row_full(g[i]),
        forall|j: int| 0 <= j < g.len() && j != i ==> !row_full(#[trigger] g[j]),
    ensures
        cleared_rows(g) == g.remove(i),
    decreases g.len(),
{
    reveal(Seq::filter);
    if i == g.len() - 1 {
        lemma_cleared_no_full(g.drop_last());
        assert(cleared_rows(g) =~= g.remove(i));
    } else {
        lemma_single_full_row(g.drop_last(), i);
        assert(!row_full(g.last()));
        assert(cleared_rows(g) == cleared_rows(g.drop_last()).push(g.last()));
        assert(cleared_rows(g) =~= g.remove(i));
    }
}

/// The grid `g` grown with empty rows until it covers row `h`.
pub open spec fn grown(g: Seq<Seq<Option<Block>>>, h: int, columns: int) -> Seq<
    Seq<Option<Block>>,
> {
    if g.len() > h {
        g
    } else {
        g + Seq::new((h + 1 - g.len()) as nat, |r: int| empty_row(columns))
    }
}

/// The grid `g` with `Some(block)` written at column `x` of row `y`.
pub open spec fn put_block(
    g: Seq<Seq<Option<Block>>>,
    x: int,
    y: int,
    block: Block,
) -> Seq<Seq<Option<Block>>> {
    g.update(y, g[y].update(x, Some(block)))
}

/// The playfield stack.  `(0, 0)` is the bottom-left cell; rows are stored
/// bottom first.
#[derive(Debug)]
pub struct Board {
    /// Number of columns of the grid.
    columns: i16,
    /// Playable height: locking a block at or above this row is a loss.
    rows: i16,
    /// The stack of rows, bottom first; each row has exactly `columns`
    /// entries.  Never taller than `rows`.
    stack: Vec<Vec<Option<Block>>>,
}

impl Board {
    /// The stack as a sequence of rows of optional blocks.
    pub closed spec fn grid(self) -> Seq<Seq<Option<Block>>> {
        self.stack@.map_values(|r: Vec<Option<Block>>| r@)
    }

    /// Number of columns, as a mathematical integer.
    pub closed spec fn spec_columns(self) -> int {
        self.columns as int
    }

    /// Playable height, as a mathematical integer.
    pub closed spec fn spec_rows(self) -> int {
        self.rows as int
    }

    /// Well-formedness: small fixed dimensions, every row exactly `columns`
    /// wide, and the stack never taller than the playable height.
    pub open spec fn wf(self) -> bool {
        &&& 1 <= self.spec_columns() <= 100
        &&& 1 <= self.spec_rows() <= 100
        &&& self.grid().len() <= self.spec_rows()
        &&& forall|r: int|
            0 <= r < self.grid().len() ==> (#[trigger] self.grid()[r]).len()
                == self.spec_columns()
    }

    /// Whether a block may sit at column `x`, row `y`: inside the side
    /// walls, not below the floor, and not on an occupied cell.  There is no
    /// upper bound on `y` here; the loss condition is checked at lock time.
    pub open spec fn valid_pos(self, x: int, y: int) -> bool {
        &&& 0 <= x < self.spec_columns()
        &&& 0 <= y
        &&& y < self.grid().len() ==> self.grid()[y][x] is None
    }

    /// An empty board of the given dimensions.
    pub fn new(columns: i16, rows: i16) -> (b: Board)
        requires
            1 <= columns <= 100,
            1 <= rows <= 100,
        ensures
            b.wf(),
            b.spec_columns() == columns,
            b.spec_rows() == rows,
            b.grid() =~= Seq::<Seq<Option<Block>>>::empty(),
    {
        Board { columns, rows, stack: Vec::new() }
    }

    /// Number of columns of the grid.
    pub fn columns(&self) -> (c: i16)
        ensures
            c == self.spec_columns(),
    {
        self.columns
    }

    /// Playable height of the grid.
    pub fn rows(&self) -> (r: i16)
        ensures
            r == self.spec_rows(),
    {
        self.rows
    }

    /// How many rows the stack currently holds.
    pub fn row_count(&self) -> (n: usize)
        ensures
            n == self.grid().len(),
    {
        self.stack.len()
    }

    /// Empties the stack.
    pub fn clear(&mut self)
        requires
            old(self).wf(),
        ensures
            final(self).wf(),
            final(self).grid() =~= Seq::<Seq<Option<Block>>>::empty(),
            final(self).spec_columns() == old(self).spec_columns(),
            final(self).spec_rows() == old(self).spec_rows(),
    {
        self.stack.clear();
    }

    /// The block at column `pos.x`, row `pos.y`, or `None` when the cell is
    /// outside the stack or empty.
    pub fn cell(&self, pos: GridPos) -> (r: Option<Block>)
        requires
            self.wf(),
        ensures
            r == (if 0 <= pos.x < self.spec_columns() && 0 <= pos.y < self.grid().len() {
                self.grid()[pos.y as int][pos.x as int]
            } else {
                None::<Block>
            }),
    {
        if pos.x < 0 || pos.x >= self.columns || pos.y < 0 {
            return None;
        }
        if (pos.y as usize) < self.stack.len() {
            proof {
                assert(self.grid()[pos.y as int] == self.stack@[pos.y as int]@);
            }
            self.stack[pos.y as usize][pos.x as usize]
        } else {
            None
        }
    }

    /// Whether a block may sit at the cell `(x, y)`: false exactly when the
    /// cell is outside the side walls, below the floor, or occupied.
    pub fn is_valid_at(&self, x: i32, y: i32) -> (r: bool)
        requires
            self.wf(),
        ensures
            r == self.valid_pos(x as int, y as int),
    {
        if x < 0 || x >= self.columns as i32 {
            return false;
        }
        if y < 0 {
            return false;
        }
        if (y as usize) < self.stack.len() {
            proof {
                assert(self.grid()[y as int] == self.stack@[y as int]@);
            }
            self.stack[y as usize][x as usize].is_none()
        } else {
            true
        }
    }

    /// Whether a block may sit at the cell `pos`.
    pub fn is_valid(&self, pos: GridPos) -> (r: bool)
        requires
            self.wf(),
        ensures
            r == self.valid_pos(pos.x as int, pos.y as int),
    {
        self.is_valid_at(pos.x as i32, pos.y as i32)
    }

    /// Whether every column of this row is occupied.
    fn is_row_full(row: &Vec<Option<Block>>) -> (r: bool)
        ensures
            r == row_full(row@),
    {
        let mut x: usize = 0;
        while x < row.len()
            invariant
                0 <= x <= row@.len(),
                forall|j: int| 0 <= j < x ==> row@[j] is Some,
            decreases row@.len() - x,
        {
            if row[x].is_none() {
                proof {
                    assert(row@[x as int] is None);
                }
                return false;
            }
            x = x + 1;
        }
        true
    }

    /// Appends empty rows until the stack covers row `h`.
    fn grow_to(&mut self, h: usize)
        requires
            old(self).wf(),
            h < old(self).spec_rows(),
        ensures
            final(self).wf(),
            final(self).spec_columns() == old(self).spec_columns(),
            final(self).spec_rows() == old(self).spec_rows(),
            final(self).grid() == grown(old(self).grid(), h as int, old(self).spec_columns()),
            final(self).grid().len() > h,
    {
        let ghost g0 = self.grid();
        while self.stack.len() <= h
            invariant
                self.wf(),
                self.spec_columns() == old(self).spec_columns(),
                self.spec_rows() == old(self).spec_rows(),
                h < self.spec_rows(),
                g0.len() <= self.grid().len(),
                self.grid().len() <= if g0.len() > h {
                    g0.len() as int
                } else {
                    h + 1
                },
                forall|i: int| 0 <= i < g0.len() ==> self.grid()[i] == g0[i],
                forall|i: int|
                    g0.len() <= i < self.grid().len() ==> self.grid()[i] == empty_row(
                        self.spec_columns(),
                    ),
            decreases self.spec_rows() - self.grid().len(),
        {
            let ghost gpre = self.grid();
            let row: Vec<Option<Block>> = vec![None; self.columns as usize];
            proof {
                assert(row@ =~= empty_row(self.spec_columns()));
            }
            self.stack.push(row);
            proof {
                assert(self.grid() =~= gpre.push(empty_row(self.spec_columns())));
            }
        }
        proof {
            assert(self.grid() =~= grown(g0, h as int, old(self).spec_columns()));
        }
    }

    /// Writes `Some(block)` at column `x` of row `y`.
    fn put_cell(&mut self, x: usize, y: usize, block: Block)
        requires
            old(self).wf(),
            y < old(self).grid().len(),
            x < old(self).spec_columns(),
        ensures
            final(self).wf(),
            final(self).spec_columns() == old(self).spec_columns(),
            final(self).spec_rows() == old(self).spec_rows(),
            final(self).grid() == put_block(old(self).grid(), x as int, y as int, block),
    {
        proof {
            assert(self.grid()[y as int] == self.stack@[y as int]@);
        }
        let mut row = self.stack.remove(y);
        row.remove(x);
        row.insert(x, Some(block));
        proof {
            assert(row@ =~= old(self).grid()[y as int].update(x as int, Some(block)));
        }
        self.stack.insert(y, row);
        proof {
            assert(self.grid() =~= put_block(old(self).grid(), x as int, y as int, block));
        }
    }

    /// Grows the stack to cover the four cells and writes a block of the
    /// given color at each of them.
    pub fn place(&mut self, c0: GridPos, c1: GridPos, c2: GridPos, c3: GridPos, block: Block)
        requires
            old(self).wf(),
            0 <= c0.x < old(self).spec_columns() && 0 <= c0.y < old(self).spec_rows(),
            0 <= c1.x < old(self).spec_columns() && 0 <= c1.y < old(self).spec_rows(),
            0 <= c2.x < old(self).spec_columns() && 0 <= c2.y < old(self).spec_rows(),
            0 <= c3.x < old(self).spec_columns() && 0 <= c3.y < old(self).spec_rows(),
        ensures
            final(self).wf(),
            final(self).spec_columns() == old(self).spec_columns(),
            final(self).spec_rows() == old(self).spec_rows(),
            final(self).grid() == locked_grid(
                old(self).grid(),
                c0,
                c1,
                c2,
                c3,
                block,
                old(self).spec_columns(),
            ),
    {
        let mut h: i16 = c0.y;
        if c1.y > h {
            h = c1.y;
        }
        if c2.y > h {
            h = c2.y;
        }
        if c3.y > h {
            h = c3.y;
        }
        self.grow_to(h as usize);
        self.put_cell(c0.x as usize, c0.y as usize, block);
        self.put_cell(c1.x as usize, c1.y as usize, block);
        self.put_cell(c2.x as usize, c2.y as usize, block);
        self.put_cell(c3.x as usize, c3.y as usize, block);
    }

    /// Removes every full row from the stack, bottom to top, and returns how
    /// many were removed; the rows above a removed row shift down by one
    /// index.
    pub fn clear_full_rows(&mut self) -> (n: usize)
        requires
            old(self).wf(),
        ensures
            final(self).wf(),
            final(self).spec_columns() == old(self).spec_columns(),
            final(self).spec_rows() == old(self).spec_rows(),
            final(self).grid() == cleared_rows(old(self).grid()),
            n == num_full(old(self).grid()),
    {
        let ghost g0 = self.grid();
        let ghost k: int = 0;
        let mut kk = Ghost(k);
        let mut i: usize = 0;
        let mut n: usize = 0;
        proof {
            assert(g0.take(0) =~= Seq::<Seq<Option<Block>>>::empty());
            reveal(Seq::filter);
        }
        while i < self.stack.len()
            invariant
                self.wf(),
                self.spec_columns() == old(self).spec_columns(),
                self.spec_rows() == old(self).spec_rows(),
                g0.len() <= 100,
                0 <= kk@ <= g0.len(),
                i == cleared_rows(g0.take(kk@)).len(),
                n == num_full(g0.take(kk@)),
                n <= kk@,
                self.grid() == cleared_rows(g0.take(kk@)) + g0.skip(kk@),
            decreases g0.len() - kk@,
        {
            proof {
                reveal(Seq::filter);
                lemma_cleared_len(g0.take(kk@));
                assert(self.grid().len() == i + g0.len() - kk@);
                assert(kk@ < g0.len());
                assert(self.grid()[i as int] == g0[kk@]);
                assert(self.stack@[i as int]@ == self.grid()[i as int]);
                assert(g0.take(kk@ + 1).drop_last() =~= g0.take(kk@));
                assert(g0.take(kk@ + 1).last() == g0[kk@]);
            }
            let ghost gpre = self.grid();
            let ghost kold = kk@;
            let full = Self::is_row_full(&self.stack[i]);
            if full {
                self.stack.remove(i);
                n = n + 1;
                proof {
                    reveal(Seq::filter);
                    kk@ = kold + 1;
                    assert(row_full(g0.take(kold + 1).last()));
                    assert(cleared_rows(g0.take(kold + 1)) == cleared_rows(g0.take(kold)));
                    assert(num_full(g0.take(kold + 1)) == num_full(g0.take(kold)) + 1);
                    assert(self.grid() =~= gpre.remove(i as int));
                    assert(gpre.remove(i as int) =~= cleared_rows(g0.take(kold)) + g0.skip(
                        kold + 1,
                    ));
                }
            } else {
                i = i + 1;
                proof {
                    reveal(Seq::filter);
                    kk@ = kold + 1;
                    assert(!row_full(g0.take(kold + 1).last()));
                    assert(cleared_rows(g0.take(kold + 1)) == cleared_rows(g0.take(kold)).push(
                        g0[kold],
                    ));
                    assert(num_full(g0.take(kold + 1)) == num_full(g0.take(kold)));
                    assert(self.grid() =~= cleared_rows(g0.take(kold + 1)) + g0.skip(kold + 1));
                }
            }
        }
        proof {
            lemma_cleared_len(g0.take(kk@));
            assert(kk@ == g0.len());
            assert(g0.take(kk@) =~= g0);
            assert(self.grid() =~= cleared_rows(g0));
        }
        n
    }
}

/// The maximum of four integers.
pub open spec fn max4(a: int, b: int, c: int, d: int) -> int {
    let m1 = if a >= b {
        a
    } else {
        b
    };
    let m2 = if m1 >= c {
        m1
    } else {
        c
    };
    if m2 >= d {
        m2
    } else {
        d
    }
}

/// The grid after locking four blocks of one color: grown to cover the
/// tallest cell, then written at each of the four cells in order.
pub open spec fn locked_grid(
    g: Seq<Seq<Option<Block>>>,
    c0: GridPos,
    c1: GridPos,
    c2: GridPos,
    c3: GridPos,
    block: Block,
    columns: int,
) -> Seq<Seq<Option<Block>>> {
    let h = max4(c0.y as int, c1.y as int, c2.y as int, c3.y as int);
    put_block(
        put_block(
            put_block(
                put_block(grown(g, h, columns), c0.x as int, c0.y as int, block),
                c1.x as int,
                c1.y as int,
                block,
            ),
            c2.x as int,
            c2.y as int,
            block,
        ),
        c3.x as int,
        c3.y as int,
        block,
    )
}

} // verus!
