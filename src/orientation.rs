//! Orientation correction: a clockwise turn by a multiple of a quarter,
//! followed by an optional top-to-bottom mirror.

use vstd::prelude::*;
use crate::grid::{
    Grid, anti_diagonal_symmetric, flipped_vertically, grid_wf, lemma_three_quarter_turns,
    lemma_turn_then_mirror_differs, rotated180, rotated270, rotated90,
};

verus! {

/// How an image must be corrected to stand upright.
///
/// `rotation` is a clockwise angle in degrees; only 90, 180 and 270 turn the
/// image, any other value leaves it as it is. When `mirror_vertically` is set
/// the image is mirrored top to bottom after it has been turned.
#[derive(Debug, Clone, Copy, PartialEq, Eq, Structural)]
pub struct ImageOrientation {
    pub rotation: u16,
    pub mirror_vertically: bool,
}

/// The number of clockwise quarter turns that `rotation` degrees ask for.
pub open spec fn quarters_of(rotation: u16) -> nat {
    if rotation == 90 {
        1
    } else if rotation == 180 {
        2
    } else if rotation == 270 {
        3
    } else {
        0
    }
}

/// `g`, `width` pixels wide, turned clockwise by `quarters` quarter turns.
pub open spec fn turned(g: Grid, width: nat, quarters: nat) -> Grid {
    if quarters == 1 {
        rotated90(g, width)
    } else if quarters == 2 {
        rotated180(g, width)
    } else if quarters == 3 {
        rotated270(g, width)
    } else {
        g
    }
}

/// The width of `g` after `quarters` quarter turns.
pub open spec fn turned_width(g: Grid, width: nat, quarters: nat) -> nat {
    if quarters == 1 || quarters == 3 {
        g.len()
    } else {
        width
    }
}

/// `g` with the correction `o` applied: turned first, then mirrored.
pub open spec fn oriented(g: Grid, width: nat, o: Option<ImageOrientation>) -> Grid {
    match o {
        None => g,
        Some(o) => {
            let q = quarters_of(o.rotation);
            let t = turned(g, width, q);
            if o.mirror_vertically {
                flipped_vertically(t, turned_width(g, width, q))
            } else {
                t
            }
        },
    }
}

/// The width of `g` once the correction `o` is applied.
pub open spec fn oriented_width(g: Grid, width: nat, o: Option<ImageOrientation>) -> nat {
    match o {
        None => width,
        Some(o) => turned_width(g, width, quarters_of(o.rotation)),
    }
}

impl ImageOrientation {
    /// The number of clockwise quarter turns, from 0 to 3, that this
    /// correction applies.
    pub fn quarter_turns(&self) -> (r: u8)
        ensures
            r as nat == quarters_of(self.rotation),
    {
        match self.rotation {
            90 => 1,
            180 => 2,
            270 => 3,
            _ => 0,
        }
    }
}

/// A correction that neither turns nor mirrors leaves every grid as no
/// correction at all does.
pub proof fn lemma_identity_correction(g: Grid, width: nat)
    ensures
        oriented(g, width, Some(ImageOrientation { rotation: 0, mirror_vertically: false }))
            == oriented(g, width, None),
        oriented_width(g, width, Some(ImageOrientation { rotation: 0, mirror_vertically: false }))
            == oriented_width(g, width, None),
{
}

/// A rotation other than 90, 180 or 270 degrees acts as a rotation of 0
/// degrees.
pub proof fn lemma_unknown_rotation_is_none(g: Grid, width: nat, o: ImageOrientation)
    requires
        o.rotation != 90 && o.rotation != 180 && o.rotation != 270,
    ensures
        oriented(g, width, Some(o)) == oriented(
            g,
            width,
            Some(ImageOrientation { rotation: 0, ..o }),
        ),
        oriented_width(g, width, Some(o)) == oriented_width(
            g,
            width,
            Some(ImageOrientation { rotation: 0, ..o }),
        ),
{
}

/// Three corrections of a quarter turn, each applied to the result of the one
/// before, are one correction of three quarter turns.
pub proof fn lemma_three_quarters_by_composition(g: Grid, width: nat)
    requires
        grid_wf(g, width),
    ensures
        ({
            let quarter = Some(ImageOrientation { rotation: 90, mirror_vertically: false });
            let g1 = oriented(g, width, quarter);
            let w1 = oriented_width(g, width, quarter);
            let g2 = oriented(g1, w1, quarter);
            let w2 = oriented_width(g1, w1, quarter);
            let three = Some(ImageOrientation { rotation: 270, mirror_vertically: false });
            &&& oriented(g2, w2, quarter) == oriented(g, width, three)
            &&& oriented_width(g2, w2, quarter) == oriented_width(g, width, three)
        }),
{
    lemma_three_quarter_turns(g, width);
}

/// A quarter turn followed by a mirror, which is what a correction of 90
/// degrees with mirroring does, differs from the mirror followed by the turn
/// on every grid that is not symmetric in its anti-diagonal.
pub proof fn lemma_turn_before_mirror(g: Grid, width: nat)
    requires
        grid_wf(g, width),
        !anti_diagonal_symmetric(g, width),
    ensures
        oriented(g, width, Some(ImageOrientation { rotation: 90, mirror_vertically: true }))
            != rotated90(flipped_vertically(g, width), width),
{
    lemma_turn_then_mirror_differs(g, width);
}

} // verus!
