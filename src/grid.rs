//! Pixel grids and the four exact transforms on them.
//!
//! A grid is a sequence of rows from top to bottom; each row is a sequence of
//! pixels from left to right; each pixel is the bytes that store it.

use vstd::prelude::*;

verus! {

/// The bytes of one pixel.
pub type Pixel = Seq<u8>;

/// Rows of pixels, top row first.
pub type Grid = Seq<Seq<Pixel>>;

/// Every row of `g` holds `width` pixels.
pub open spec fn grid_wf(g: Grid, width: nat) -> bool {
    forall|i: int| 0 <= i < g.len() ==> #[trigger] g[i].len() == width
}

/// `g` turned a quarter clockwise: its left column becomes the top row.
pub open spec fn rotated90(g: Grid, width: nat) -> Grid {
    Seq::new(width, |i: int| Seq::new(g.len(), |j: int| g[g.len() - 1 - j][i]))
}

/// `g` turned half a turn.
pub open spec fn rotated180(g: Grid, width: nat) -> Grid {
    Seq::new(g.len(), |i: int| Seq::new(width, |j: int| g[g.len() - 1 - i][width - 1 - j]))
}

/// `g` turned three quarters clockwise: its right column becomes the top row.
pub open spec fn rotated270(g: Grid, width: nat) -> Grid {
    Seq::new(width, |i: int| Seq::new(g.len(), |j: int| g[j][width - 1 - i]))
}

/// `g` mirrored top to bottom.
pub open spec fn flipped_vertically(g: Grid, width: nat) -> Grid {
    Seq::new(g.len(), |i: int| Seq::new(width, |j: int| g[g.len() - 1 - i][j]))
}

/// `g` equals its reflection in the anti-diagonal: the pixel in row `j`,
/// column `i` is the one in row `h - 1 - i`, column `w - 1 - j`.
pub open spec fn anti_diagonal_symmetric(g: Grid, width: nat) -> bool {
    forall|i: int, j: int|
        0 <= i < width && 0 <= j < g.len() ==> #[trigger] g[j][i] == g[g.len() - 1 - j][width - 1
            - i]
}

/// Three quarter turns clockwise, one after another, are one turn of three
/// quarters.
pub proof fn lemma_three_quarter_turns(g: Grid, width: nat)
    requires
        grid_wf(g, width),
    ensures
        rotated90(rotated90(rotated90(g, width), g.len()), width) == rotated270(g, width),
{
    let r1 = rotated90(g, width);
    let r2 = rotated90(r1, g.len());
    let r3 = rotated90(r2, width);
    assert(r3 =~~= rotated270(g, width));
}

/// Turning a quarter clockwise and then mirroring top to bottom gives the
/// same grid as mirroring first and then turning only when the grid is
/// symmetric in its anti-diagonal; for any other grid the order shows.
pub proof fn lemma_turn_then_mirror_differs(g: Grid, width: nat)
    requires
        grid_wf(g, width),
    ensures
        flipped_vertically(rotated90(g, width), g.len()) == rotated90(
            flipped_vertically(g, width),
            width,
        ) <==> anti_diagonal_symmetric(g, width),
{
    let h = g.len();
    let a = flipped_vertically(rotated90(g, width), h);
    let b = rotated90(flipped_vertically(g, width), width);
    assert(forall|i: int, j: int|
        0 <= i < width && 0 <= j < h ==> #[trigger] a[i][j] == g[h - 1 - j][width - 1 - i]);
    assert(forall|i: int, j: int| 0 <= i < width && 0 <= j < h ==> #[trigger] b[i][j] == g[j][i]);
    if a == b {
        assert forall|i: int, j: int| 0 <= i < width && 0 <= j < h implies #[trigger] g[j][i]
            == g[h - 1 - j][width - 1 - i] by {
            assert(a[i][j] == b[i][j]);
        }
    }
    if anti_diagonal_symmetric(g, width) {
        assert(a =~~= b);
    }
}

} // verus!
