//! The piece catalog and the tetramino.
//!
//! A catalog entry is an 8-bit mask (bit `x + 4*y` set means a block at
//! column `x` of row `y`) together with a color.  Decoding a mask yields
//! exactly four block offsets relative to the piece origin.  Offsets are kept
//! in quarters of a grid cell: the decoded block for bit `(x, y)` sits at
//! `(x + 1/4, y + 1/4)`, i.e. at `(4*x + 1, 4*y + 1)` quarter cells, so the
//! rotation centroid is an exact integer and rotation is exact arithmetic.

use vstd::prelude::*;
use crate::rgb::Rgb;

verus! {

/// An offset of one block relative to the piece origin, in quarter cells.
///
/// Converting an offset to a grid cell divides by four rounding toward
/// negative infinity (flooring), never toward zero.
#[derive(Clone, Copy, Debug, PartialEq, Eq, Structural)]
pub struct Offset {
    /// Horizontal offset, in quarter cells.
    pub x: i16,
    /// Vertical offset, in quarter cells.
    pub y: i16,
}

/// A catalog entry from which a tetramino is built.
#[derive(Clone, Copy, Debug, PartialEq, Eq, Structural)]
pub struct TetraminoTemplate {
    /// Block mask: bit `x + 4*y` set means a block at column `x`, row `y`.
    pub blocks: u8,
    /// The color of the tetramino.
    pub color: Rgb,
}

/// The block offset encoded by bit `i` of a mask, in quarter cells.
pub open spec fn offset_of_bit(i: int) -> Offset {
    Offset { x: (4 * (i % 4) + 1) as i16, y: (4 * (i / 4) + 1) as i16 }
}

/// The offsets of the set bits of `m`, starting at bit index `i` of the
/// original mask, in ascending bit order.  The mask is consumed by repeated
/// halving, so `m` here holds the bits at indices `i` and above.
pub open spec fn decode_from(m: int, i: int) -> Seq<Offset>
    decreases 8 - i,
{
    if i < 0 || i >= 8 {
        Seq::empty()
    } else {
        (if m % 2 == 1 {
            seq![offset_of_bit(i)]
        } else {
            Seq::empty()
        }) + decode_from(m / 2, i + 1)
    }
}

/// The offsets a whole mask decodes to, in ascending bit order.
pub open spec fn decoded_offsets(mask: u8) -> Seq<Offset> {
    decode_from(mask as int, 0)
}

/// Every decoded offset lies in the 4 x 2 template box and is one quarter
/// cell past a cell corner in each coordinate.
pub proof fn lemma_decode_bounds(m: int, i: int)
    requires
        0 <= i <= 8,
    ensures
        decode_from(m, i).len() <= 8 - i,
        forall|k: int|
            0 <= k < decode_from(m, i).len() ==> {
                let o = #[trigger] decode_from(m, i)[k];
                1 <= o.x <= 13 && 1 <= o.y <= 5 && o.x % 4 == 1 && o.y % 4 == 1
            },
    decreases 8 - i,
{
    if i < 8 {
        lemma_decode_bounds(m / 2, i + 1);
    }
}

/// Decodes a template mask into the offsets of its set bits.
fn decode_mask(mask: u8) -> (r: Vec<Offset>)
    ensures
        r@ == decoded_offsets(mask),
{
    let mut r: Vec<Offset> = Vec::new();
    let mut m: u8 = mask;
    let mut i: usize = 0;
    while i < 8
        invariant
            0 <= i <= 8,
            r@ + decode_from(m as int, i as int) == decoded_offsets(mask),
        decreases 8 - i,
    {
        if m % 2 == 1 {
            let xi: i16 = (i as i16) % 4;
            let yi: i16 = (i as i16) / 4;
            r.push(Offset { x: 4 * xi + 1, y: 4 * yi + 1 });
        }
        proof {
            assert(r@ + decode_from(m as int / 2, i as int + 1) =~= decoded_offsets(mask));
        }
        m = m / 2;
        i = i + 1;
    }
    proof {
        assert(r@ =~= decoded_offsets(mask));
    }
    r
}

/// The mask of the `t`-th catalog entry.
pub open spec fn template_mask(t: int) -> u8 {
    if t == 0 {
        0b1100_1100u8  // square
    } else if t == 1 {
        0b1110_0100u8  // T
    } else if t == 2 {
        0b0010_1110u8  // L
    } else if t == 3 {
        0b1000_1110u8  // reverse L
    } else if t == 4 {
        0b1111_0000u8  // straight
    } else if t == 5 {
        0b1100_0110u8  // Z
    } else {
        0b0110_1100u8  // S
    }
}

/// The color of the `t`-th catalog entry.
pub open spec fn template_color(t: int) -> Rgb {
    if t == 0 {
        Rgb { r: 241, g: 196, b: 15 }
    } else if t == 1 {
        Rgb { r: 142, g: 68, b: 173 }
    } else if t == 2 {
        Rgb { r: 230, g: 126, b: 34 }
    } else if t == 3 {
        Rgb { r: 41, g: 128, b: 185 }
    } else if t == 4 {
        Rgb { r: 93, g: 173, b: 226 }
    } else if t == 5 {
        Rgb { r: 231, g: 76, b: 60 }
    } else {
        Rgb { r: 46, g: 204, b: 113 }
    }
}

/// Every catalog mask decodes to exactly four offsets.
pub proof fn lemma_template_offsets_len(t: int)
    requires
        0 <= t < 7,
    ensures
        decoded_offsets(template_mask(t)).len() == 4,
{
    reveal_with_fuel(decode_from, 9);
    assert(decoded_offsets(0b1100_1100u8).len() == 4);
    assert(decoded_offsets(0b1110_0100u8).len() == 4);
    assert(decoded_offsets(0b0010_1110u8).len() == 4);
    assert(decoded_offsets(0b1000_1110u8).len() == 4);
    assert(decoded_offsets(0b1111_0000u8).len() == 4);
    assert(decoded_offsets(0b1100_0110u8).len() == 4);
    assert(decoded_offsets(0b0110_1100u8).len() == 4);
}

/// A tetramino: exactly four block offsets relative to the piece origin,
/// plus the color inherited from its template.
#[derive(Clone, Copy, Debug)]
pub struct Tetramino {
    /// The four block offsets, in quarter cells, in ascending bit order of
    /// the template mask they were decoded from.
    pub block_positions: (Offset, Offset, Offset, Offset),
    /// The color of the tetramino.
    pub color: Rgb,
}

/// Whether the offset `o` stays within 64 quarter cells of the center
/// `(cx, cy)` in each coordinate.
pub open spec fn off_near(o: Offset, cx: int, cy: int) -> bool {
    &&& cx - 64 <= o.x <= cx + 64
    &&& cy - 64 <= o.y <= cy + 64
}

/// The image of offset `b` under a clockwise quarter turn about the center
/// `(cx, cy)`: the center plus `(v.y, -v.x)` where `v` is `center - b`.
pub open spec fn rotated_offset(cx: int, cy: int, b: Offset) -> Offset {
    Offset { x: (cx + (cy - b.y)) as i16, y: (cy + (b.x - cx)) as i16 }
}

impl Tetramino {
    /// Sum of the x components of the four offsets.
    pub open spec fn sum_x(self) -> int {
        self.block_positions.0.x + self.block_positions.1.x + self.block_positions.2.x
            + self.block_positions.3.x
    }

    /// Sum of the y components of the four offsets.
    pub open spec fn sum_y(self) -> int {
        self.block_positions.0.y + self.block_positions.1.y + self.block_positions.2.y
            + self.block_positions.3.y
    }

    /// The x coordinate of the centroid (mean of the four offsets), in
    /// quarter cells; exact under `wf`.
    pub open spec fn center_x(self) -> int {
        self.sum_x() / 4
    }

    /// The y coordinate of the centroid, in quarter cells; exact under `wf`.
    pub open spec fn center_y(self) -> int {
        self.sum_y() / 4
    }

    /// Well-formedness: the centroid is an exact quarter-cell point near the
    /// origin, and every offset stays within 64 quarter cells of it.  It
    /// holds of every catalog piece and is preserved by rotation, which is a
    /// distance-preserving map about the centroid.
    pub open spec fn wf(self) -> bool {
        &&& self.sum_x() % 4 == 0
        &&& self.sum_y() % 4 == 0
        &&& -64 <= self.center_x() <= 64
        &&& -64 <= self.center_y() <= 64
        &&& off_near(self.block_positions.0, self.center_x(), self.center_y())
        &&& off_near(self.block_positions.1, self.center_x(), self.center_y())
        &&& off_near(self.block_positions.2, self.center_x(), self.center_y())
        &&& off_near(self.block_positions.3, self.center_x(), self.center_y())
    }

    /// The piece with every offset turned a quarter turn clockwise about the
    /// centroid.
    pub open spec fn spec_rotated(self) -> Tetramino {
        let cx = self.center_x();
        let cy = self.center_y();
        Tetramino {
            block_positions: (
                rotated_offset(cx, cy, self.block_positions.0),
                rotated_offset(cx, cy, self.block_positions.1),
                rotated_offset(cx, cy, self.block_positions.2),
                rotated_offset(cx, cy, self.block_positions.3),
            ),
            color: self.color,
        }
    }

    /// The centroid of the piece, in quarter cells.
    pub fn get_center(&self) -> (c: Offset)
        requires
            self.wf(),
        ensures
            c.x == self.center_x(),
            c.y == self.center_y(),
    {
        let sx: i16 = self.block_positions.0.x + self.block_positions.1.x
            + self.block_positions.2.x + self.block_positions.3.x;
        let sy: i16 = self.block_positions.0.y + self.block_positions.1.y
            + self.block_positions.2.y + self.block_positions.3.y;
        let cx: i16 = if sx >= 0 {
            sx / 4
        } else {
            -((-sx) / 4)
        };
        let cy: i16 = if sy >= 0 {
            sy / 4
        } else {
            -((-sy) / 4)
        };
        Offset { x: cx, y: cy }
    }

    /// The piece rotated a quarter turn clockwise about its centroid.  This
    /// is the unvalidated rotation; whether the rotated piece fits on the
    /// board is the caller's test.
    pub fn rotated(&self) -> (r: Tetramino)
        requires
            self.wf(),
        ensures
            r == self.spec_rotated(),
            r.wf(),
            r.center_x() == self.center_x(),
            r.center_y() == self.center_y(),
    {
        proof {
            lemma_rotated_wf(*self);
        }
        let c = self.get_center();
        Tetramino {
            block_positions: (
                rot_one(c, self.block_positions.0),
                rot_one(c, self.block_positions.1),
                rot_one(c, self.block_positions.2),
                rot_one(c, self.block_positions.3),
            ),
            color: self.color,
        }
    }
}

/// One offset turned a quarter turn clockwise about the center `c`.
fn rot_one(c: Offset, b: Offset) -> (r: Offset)
    requires
        -64 <= c.x <= 64,
        -64 <= c.y <= 64,
        off_near(b, c.x as int, c.y as int),
    ensures
        r == rotated_offset(c.x as int, c.y as int, b),
{
    Offset { x: c.x + (c.y - b.y), y: c.y + (b.x - c.x) }
}

/// Rotation keeps the centroid in place and preserves well-formedness: the
/// quarter turn is an isometry about the centroid.
pub proof fn lemma_rotated_wf(p: Tetramino)
    requires
        p.wf(),
    ensures
        p.spec_rotated().wf(),
        p.spec_rotated().center_x() == p.center_x(),
        p.spec_rotated().center_y() == p.center_y(),
        p.spec_rotated().color == p.color,
{
    let cx = p.center_x();
    let cy = p.center_y();
    let r = p.spec_rotated();
    assert(p.sum_x() == 4 * cx);
    assert(p.sum_y() == 4 * cy);
    assert(r.sum_x() == 4 * cx);
    assert(r.sum_y() == 4 * cy);
    assert(r.center_x() == cx);
    assert(r.center_y() == cy);
}

/// Four quarter turns return a well-formed piece to its original offsets.
pub proof fn lemma_rotation_cycle(p: Tetramino)
    requires
        p.wf(),
    ensures
        p.spec_rotated().spec_rotated().spec_rotated().spec_rotated() == p,
{
    lemma_rotated_wf(p);
    lemma_rotated_wf(p.spec_rotated());
    lemma_rotated_wf(p.spec_rotated().spec_rotated());
    lemma_rotated_wf(p.spec_rotated().spec_rotated().spec_rotated());
}

/// The tetramino a catalog entry builds.
pub open spec fn spec_build(t: TetraminoTemplate) -> Tetramino {
    let offs = decoded_offsets(t.blocks);
    Tetramino { block_positions: (offs[0], offs[1], offs[2], offs[3]), color: t.color }
}

impl TetraminoTemplate {
    /// Builds the tetramino this entry describes by decoding its mask.  A
    /// valid template has exactly four set bits; a malformed one is a
    /// programming error, not a runtime condition.
    pub fn build(self) -> (r: Tetramino)
        requires
            decoded_offsets(self.blocks).len() == 4,
        ensures
            r == spec_build(self),
    {
        let offs = decode_mask(self.blocks);
        Tetramino { block_positions: (offs[0], offs[1], offs[2], offs[3]), color: self.color }
    }
}

/// The piece built from the `t`-th catalog entry.
pub open spec fn spec_template_piece(t: int) -> Tetramino {
    spec_build(TetraminoTemplate { blocks: template_mask(t), color: template_color(t) })
}

/// The seven pieces of the catalog, in catalog order.
pub open spec fn catalog() -> Seq<Tetramino> {
    Seq::new(7, |t: int| spec_template_piece(t))
}

/// Every catalog piece is well-formed.
pub proof fn lemma_template_piece_wf(t: int)
    requires
        0 <= t < 7,
    ensures
        spec_template_piece(t).wf(),
{
    lemma_template_offsets_len(t);
    lemma_decode_bounds(template_mask(t) as int, 0);
    let p = spec_template_piece(t);
    let offs = decoded_offsets(template_mask(t));
    assert(p.block_positions.0 == offs[0]);
    assert(p.block_positions.1 == offs[1]);
    assert(p.block_positions.2 == offs[2]);
    assert(p.block_positions.3 == offs[3]);
    assert(4 <= p.sum_x() <= 52);
    assert(p.sum_x() % 4 == 0);
    assert(p.sum_y() % 4 == 0);
    assert(1 <= p.center_x() <= 13);
    assert(1 <= p.center_y() <= 13);
}

/// No two catalog pieces are equal: their colors already differ.
pub proof fn lemma_catalog_distinct()
    ensures
        forall|i: int, j: int|
            0 <= i < 7 && 0 <= j < 7 && i != j ==> catalog()[i] != catalog()[j],
{
    assert forall|i: int, j: int|
        0 <= i < 7 && 0 <= j < 7 && i != j implies catalog()[i] != catalog()[j] by {
        assert(catalog()[i].color == template_color(i));
        assert(catalog()[j].color == template_color(j));
    }
}

/// Whether `p` is one of the seven catalog pieces.
pub open spec fn is_catalog_piece(p: Tetramino) -> bool {
    exists|t: int| 0 <= t < 7 && p == catalog()[t]
}

/// Every catalog piece is well-formed.
pub proof fn lemma_catalog_piece_wf(p: Tetramino)
    requires
        is_catalog_piece(p),
    ensures
        p.wf(),
{
    let t = choose|t: int| 0 <= t < 7 && p == catalog()[t];
    lemma_template_piece_wf(t);
}

/// Every block offset of a catalog piece lies in the 4 x 2 template box:
/// between 1 and 13 quarter cells across and between 1 and 5 quarter cells
/// up, so its floored cell is between 0 and 3 across and 0 and 1 up.
pub proof fn lemma_catalog_piece_offsets(p: Tetramino)
    requires
        is_catalog_piece(p),
    ensures
        1 <= p.block_positions.0.x <= 13 && 1 <= p.block_positions.0.y <= 5,
        1 <= p.block_positions.1.x <= 13 && 1 <= p.block_positions.1.y <= 5,
        1 <= p.block_positions.2.x <= 13 && 1 <= p.block_positions.2.y <= 5,
        1 <= p.block_positions.3.x <= 13 && 1 <= p.block_positions.3.y <= 5,
{
    let t = choose|t: int| 0 <= t < 7 && p == catalog()[t];
    lemma_template_offsets_len(t);
    lemma_decode_bounds(template_mask(t) as int, 0);
    let offs = decoded_offsets(template_mask(t));
    assert(p.block_positions.0 == offs[0]);
    assert(p.block_positions.1 == offs[1]);
    assert(p.block_positions.2 == offs[2]);
    assert(p.block_positions.3 == offs[3]);
}

/// The `t`-th catalog piece, freshly built.
pub fn template_piece(t: usize) -> (r: Tetramino)
    requires
        t < 7,
    ensures
        r == spec_template_piece(t as int),
        r.wf(),
{
    proof {
        lemma_template_offsets_len(t as int);
        lemma_template_piece_wf(t as int);
    }
    let tpl = template(t);
    tpl.build()
}

/// How many catalog entries there are.
pub fn template_count() -> (n: usize)
    ensures
        n == 7,
{
    7
}

/// The `t`-th catalog entry.
pub fn template(t: usize) -> (r: TetraminoTemplate)
    requires
        t < 7,
    ensures
        r.blocks == template_mask(t as int),
        r.color == template_color(t as int),
{
    if t == 0 {
        TetraminoTemplate { blocks: 0b1100_1100u8, color: Rgb { r: 241, g: 196, b: 15 } }
    } else if t == 1 {
        TetraminoTemplate { blocks: 0b1110_0100u8, color: Rgb { r: 142, g: 68, b: 173 } }
    } else if t == 2 {
        TetraminoTemplate { blocks: 0b0010_1110u8, color: Rgb { r: 230, g: 126, b: 34 } }
    } else if t == 3 {
        TetraminoTemplate { blocks: 0b1000_1110u8, color: Rgb { r: 41, g: 128, b: 185 } }
    } else if t == 4 {
        TetraminoTemplate { blocks: 0b1111_0000u8, color: Rgb { r: 93, g: 173, b: 226 } }
    } else if t == 5 {
        TetraminoTemplate { blocks: 0b1100_0110u8, color: Rgb { r: 231, g: 76, b: 60 } }
    } else {
        TetraminoTemplate { blocks: 0b0110_1100u8, color: Rgb { r: 46, g: 204, b: 113 } }
    }
}

} // verus!
