use vstd::prelude::*;

use crate::game::ball::{Ball, BALL_PADDING};
use crate::game::pad::{self, footprint};
use crate::game::player::Player;
use crate::odd::Odd;
use crate::voxelbox::{DEEPTH, HEIGHT, WIDTH};

verus! {

/// A test of whether one object touches another.
pub trait Collision<T> {
    type Output;

    fn collides(&self, other: &T) -> Self::Output;
}

/// A face of the grid. Left and right are the paddles' faces along x.
#[derive(PartialEq, Eq, Debug, Clone, Copy, Structural)]
pub enum CollisionSide {
    Left,
    Right,
    Top,
    Bottom,
    Front,
    Back,
}

/// The walls of the grid.
pub struct Bounds;

/// `seq![s]` when `touching`, else nothing.
pub open spec fn side_if(touching: bool, s: CollisionSide) -> Seq<CollisionSide> {
    if touching {
        seq![s]
    } else {
        Seq::empty()
    }
}

/// The faces that a ball at `p` touches, in the order left, right, top, bottom,
/// front, back. A face is touched when the ball's cube rests against it.
pub open spec fn touching_sides(p: (u8, u8, u8)) -> Seq<CollisionSide> {
    side_if(p.0 == BALL_PADDING, CollisionSide::Left) + side_if(
        p.0 == WIDTH - 1 - BALL_PADDING,
        CollisionSide::Right,
    ) + side_if(p.1 == BALL_PADDING, CollisionSide::Top) + side_if(
        p.1 == HEIGHT - 1 - BALL_PADDING,
        CollisionSide::Bottom,
    ) + side_if(p.2 == BALL_PADDING, CollisionSide::Front) + side_if(
        p.2 == DEEPTH - 1 - BALL_PADDING,
        CollisionSide::Back,
    )
}

/// Whether `a` is exactly one away from `b`.
pub open spec fn off_by_one(a: int, b: int) -> bool {
    a == b - 1 || a == b + 1
}

/// Whether a ball at x coordinate `x` lies against a paddle in the planes `planes`:
/// one face of its cube is one away from one of the planes.
pub open spec fn x_adjacent(x: int, planes: (u8, u8)) -> bool {
    let near = x + BALL_PADDING;
    let far = x - BALL_PADDING;
    off_by_one(near, planes.0 as int) || off_by_one(near, planes.1 as int) || off_by_one(
        far,
        planes.0 as int,
    ) || off_by_one(far, planes.1 as int)
}

/// Whether the offset `d` of a footprint centred on `(y, z)` is within one step of
/// `(by, bz)` on both axes.
pub open spec fn near_offset(by: int, bz: int, y: int, z: int, d: (i8, i8)) -> bool {
    off_by_one(by, y + d.0) && off_by_one(bz, z + d.1)
}

/// Whether a ball at `p` hits a paddle at `paddle` (its planes, height and depth).
pub open spec fn hits_paddle(p: (u8, u8, u8), paddle: ((u8, u8), u8, u8)) -> bool {
    x_adjacent(p.0 as int, paddle.0) && exists|i: int|
        0 <= i < footprint().len() && #[trigger] near_offset(
            p.1 as int,
            p.2 as int,
            paddle.1 as int,
            paddle.2 as int,
            footprint()[i],
        )
}

/// Whether `sides` holds `s`.
pub open spec fn has_side(sides: Seq<CollisionSide>, s: CollisionSide) -> bool {
    sides.contains(s)
}

/// Whether a ball at `p` rests against face `s`.
pub open spec fn touches(p: (u8, u8, u8), s: CollisionSide) -> bool {
    match s {
        CollisionSide::Left => p.0 == BALL_PADDING,
        CollisionSide::Right => p.0 == WIDTH - 1 - BALL_PADDING,
        CollisionSide::Top => p.1 == BALL_PADDING,
        CollisionSide::Bottom => p.1 == HEIGHT - 1 - BALL_PADDING,
        CollisionSide::Front => p.2 == BALL_PADDING,
        CollisionSide::Back => p.2 == DEEPTH - 1 - BALL_PADDING,
    }
}

proof fn lemma_side_if(touching: bool, s: CollisionSide, t: CollisionSide)
    ensures
        side_if(touching, s).contains(t) <==> touching && s == t,
{
    if touching && s == t {
        assert(side_if(touching, s)[0] == t);
    }
}

/// The sides reported for a ball are exactly the faces that it rests against.
pub proof fn lemma_touching_sides(p: (u8, u8, u8))
    ensures
        forall|s: CollisionSide| #[trigger] has_side(touching_sides(p), s) <==> touches(p, s),
{
    broadcast use vstd::seq_lib::lemma_seq_concat_contains_all_elements;

    assert forall|s: CollisionSide| #[trigger] has_side(touching_sides(p), s) <==> touches(p, s) by {
        lemma_side_if(p.0 == BALL_PADDING, CollisionSide::Left, s);
        lemma_side_if(p.0 == WIDTH - 1 - BALL_PADDING, CollisionSide::Right, s);
        lemma_side_if(p.1 == BALL_PADDING, CollisionSide::Top, s);
        lemma_side_if(p.1 == HEIGHT - 1 - BALL_PADDING, CollisionSide::Bottom, s);
        lemma_side_if(p.2 == BALL_PADDING, CollisionSide::Front, s);
        lemma_side_if(p.2 == DEEPTH - 1 - BALL_PADDING, CollisionSide::Back, s);
    }
}

/// Tests whether `sides` holds `s`.
pub fn contains_side(sides: &Vec<CollisionSide>, s: CollisionSide) -> (r: bool)
    ensures
        r == has_side(sides@, s),
{
    let mut i: usize = 0;
    while i < sides.len()
        invariant
            i <= sides@.len(),
            forall|j: int| 0 <= j < i ==> sides@[j] != s,
        decreases sides.len() - i,
    {
        if sides[i] == s {
            return true;
        }
        i = i + 1;
    }
    false
}

impl Collision<Bounds> for Ball {
    type Output = Vec<CollisionSide>;

    fn collides(&self, other: &Bounds) -> (r: Vec<CollisionSide>)
        ensures
            r@ == touching_sides(self@.position),
    {
        let (x, y, z) = self.position();
        let mut sides: Vec<CollisionSide> = Vec::new();
        if x == BALL_PADDING {
            sides.push(CollisionSide::Left);
        }
        if x == WIDTH - 1 - BALL_PADDING {
            sides.push(CollisionSide::Right);
        }
        if y == BALL_PADDING {
            sides.push(CollisionSide::Top);
        }
        if y == HEIGHT - 1 - BALL_PADDING {
            sides.push(CollisionSide::Bottom);
        }
        if z == BALL_PADDING {
            sides.push(CollisionSide::Front);
        }
        if z == DEEPTH - 1 - BALL_PADDING {
            sides.push(CollisionSide::Back);
        }
        proof {
            assert(sides@ =~= touching_sides(self@.position));
        }
        sides
    }
}

impl Collision<Player> for Ball {
    type Output = bool;

    fn collides(&self, other: &Player) -> (r: bool)
        ensures
            r == hits_paddle(self@.position, other.spec_full_position()),
    {
        let (x, y, z) = self.position();
        let ((x1, x2), py, pz) = other.full_position();
        let near: i16 = x as i16 + BALL_PADDING as i16;
        let far: i16 = x as i16 - BALL_PADDING as i16;
        let a: i16 = x1 as i16;
        let b: i16 = x2 as i16;
        let x_matching = near == a - 1 || near == a + 1 || near == b - 1 || near == b + 1 || far
            == a - 1 || far == a + 1 || far == b - 1 || far == b + 1;
        if !x_matching {
            assert(!x_adjacent(x as int, (x1, x2)));
            return false;
        }
        let offsets = pad::deltas(Odd::new_panics(pad::SIZE));
        let mut i: usize = 0;
        while i < offsets.len()
            invariant
                offsets@ == footprint(),
                i <= offsets@.len(),
                x_adjacent(x as int, (x1, x2)),
                (x, y, z) == self@.position,
                ((x1, x2), py, pz) == other.spec_full_position(),
                forall|j: int|
                    0 <= j < i ==> !#[trigger] near_offset(
                        y as int,
                        z as int,
                        py as int,
                        pz as int,
                        footprint()[j],
                    ),
            decreases offsets.len() - i,
        {
            let (dy, dz) = offsets[i];
            let cy: i16 = py as i16 + dy as i16;
            let cz: i16 = pz as i16 + dz as i16;
            let by: i16 = y as i16;
            let bz: i16 = z as i16;
            if (by == cy - 1 || by == cy + 1) && (bz == cz - 1 || bz == cz + 1) {
                assert(near_offset(y as int, z as int, py as int, pz as int, footprint()[i as int]));
                assert(y == self@.position.1);
                assert(z == self@.position.2);
                assert(py == other.spec_full_position().1);
                assert(pz == other.spec_full_position().2);
                return true;
            }
            i = i + 1;
        }
        assert(!hits_paddle(self@.position, other.spec_full_position()));
        false
    }
}

} // verus!
