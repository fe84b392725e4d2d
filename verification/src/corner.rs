use vstd::prelude::*;

use crate::skeleton::{climber_joint, CLIMBER_JOINT_COUNT};

verus! {

/// Number of targets in a pose: one per corner.
pub const CORNER_COUNT: usize = 4;

/// The quadrant, around its anchor, in which a pose puts a limb's target.
/// Screen coordinates grow rightwards and downwards, so "top" means a
/// negative vertical offset.
#[derive(Clone, Copy, Debug, PartialEq, Eq, Structural)]
pub enum Corner {
    TopLeft,
    TopRight,
    BottomLeft,
    BottomRight,
}

/// The corner of the `i`-th target of a pose (for `i < 4`).
pub open spec fn corner_at(i: int) -> Corner {
    if i == 0 {
        Corner::TopLeft
    } else if i == 1 {
        Corner::TopRight
    } else if i == 2 {
        Corner::BottomLeft
    } else {
        Corner::BottomRight
    }
}

/// The position of a corner's target in a pose.
pub open spec fn corner_index(c: Corner) -> int {
    match c {
        Corner::TopLeft => 0,
        Corner::TopRight => 1,
        Corner::BottomLeft => 2,
        Corner::BottomRight => 3,
    }
}

/// The signs that carry a point of the first quadrant (both coordinates
/// non-negative) into the corner's quadrant.
pub open spec fn corner_signs(c: Corner) -> (int, int) {
    match c {
        Corner::TopLeft => (-1, -1),
        Corner::TopRight => (1, -1),
        Corner::BottomLeft => (-1, 1),
        Corner::BottomRight => (1, 1),
    }
}

/// A point `(x, y)` mirrored into the corner's quadrant.
pub open spec fn mirror(c: Corner, p: (int, int)) -> (int, int) {
    (corner_signs(c).0 * p.0, corner_signs(c).1 * p.1)
}

impl Corner {
    /// The corner of the `index`-th target of a pose; a pose has no target
    /// beyond the fourth, which is an error.
    pub fn from_index(index: usize) -> (c: Option<Corner>)
        ensures
            c == if index < CORNER_COUNT { Some(corner_at(index as int)) } else { None },
    {
        if index == 0 {
            Some(Corner::TopLeft)
        } else if index == 1 {
            Some(Corner::TopRight)
        } else if index == 2 {
            Some(Corner::BottomLeft)
        } else if index == 3 {
            Some(Corner::BottomRight)
        } else {
            None
        }
    }

    /// The position of this corner's target in a pose.
    pub fn index(&self) -> (i: usize)
        ensures
            i == corner_index(*self),
    {
        match self {
            Corner::TopLeft => 0,
            Corner::TopRight => 1,
            Corner::BottomLeft => 2,
            Corner::BottomRight => 3,
        }
    }

    /// The horizontal and vertical signs of this corner's quadrant.
    pub fn signs(&self) -> (s: (i8, i8))
        ensures
            s.0 == corner_signs(*self).0,
            s.1 == corner_signs(*self).1,
    {
        match self {
            Corner::TopLeft => (-1, -1),
            Corner::TopRight => (1, -1),
            Corner::BottomLeft => (-1, 1),
            Corner::BottomRight => (1, 1),
        }
    }

    /// The corners in the order a pose lists its targets.
    pub fn all() -> (corners: Vec<Corner>)
        ensures
            corners@ == Seq::new(CORNER_COUNT as nat, |i: int| corner_at(i)),
    {
        let mut corners: Vec<Corner> = Vec::new();
        corners.push(Corner::TopLeft);
        corners.push(Corner::TopRight);
        corners.push(Corner::BottomLeft);
        corners.push(Corner::BottomRight);
        assert(corners@ =~= Seq::new(CORNER_COUNT as nat, |i: int| corner_at(i)));
        corners
    }
}

/// A pose's targets and the four corners correspond one to one: the target
/// at position `corner_index(c)` lies in corner `c`, and each position below
/// four belongs to exactly one corner.
pub proof fn lemma_corner_positions(c: Corner, i: int)
    ensures
        corner_at(corner_index(c)) == c,
        0 <= corner_index(c) < CORNER_COUNT,
        0 <= i < CORNER_COUNT ==> corner_index(corner_at(i)) == i,
{
}

/// Mirroring into a corner twice gives back the point: this is how a target
/// stored in its corner is brought back to the first quadrant to be moved,
/// then put back.
pub proof fn lemma_mirror_twice(c: Corner, p: (int, int))
    ensures
        mirror(c, mirror(c, p)) == p,
{
    let (sx, sy) = corner_signs(c);
    let (x, y) = p;
    assert(sx * (sx * x) == x) by (nonlinear_arith)
        requires
            sx == 1 || sx == -1,
    ;
    assert(sy * (sy * y) == y) by (nonlinear_arith)
        requires
            sy == 1 || sy == -1,
    ;
}

/// Mirroring a point of the first quadrant puts it in the corner's quadrant:
/// its coordinates take the corner's signs (or are zero).
pub proof fn lemma_mirror_into_quadrant(c: Corner, p: (int, int))
    requires
        p.0 >= 0,
        p.1 >= 0,
    ensures
        corner_signs(c).0 < 0 ==> mirror(c, p).0 <= 0,
        corner_signs(c).0 > 0 ==> mirror(c, p).0 >= 0,
        corner_signs(c).1 < 0 ==> mirror(c, p).1 <= 0,
        corner_signs(c).1 > 0 ==> mirror(c, p).1 >= 0,
{
}

/// Particle `p` of the climber is on the body's left side.
pub open spec fn on_left_side(p: int) -> bool {
    0 <= p < 3 || 6 <= p < 9
}

/// Particle `p` of the climber belongs to an arm.
pub open spec fn in_arm(p: int) -> bool {
    0 <= p < 6
}

/// Joint `k` of the climber is paired with target `k` of each pose, and that
/// target lies on the limb's own side: left limbs reach to the left, arms
/// reach up and legs reach down.
pub proof fn lemma_joint_reaches_its_corner(k: int)
    requires
        0 <= k < CLIMBER_JOINT_COUNT,
    ensures
        corner_signs(corner_at(k)).0 < 0 <==> on_left_side(climber_joint(k).a as int),
        corner_signs(corner_at(k)).1 < 0 <==> in_arm(climber_joint(k).a as int),
{
}

} // verus!
