use vstd::prelude::*;

use crate::color::Rgb;
use crate::game::pad::{self, footprint, pad_plane, OutOfBounds, PADDING};
use crate::odd::Odd;
use crate::voxelbox::{painted, Draw, Voxelbox, DEEPTH, HEIGHT, WIDTH};

verus! {

/// `v` moved into `[lo, hi]`.
pub open spec fn clamp(v: int, lo: int, hi: int) -> int {
    if v < lo {
        lo
    } else if v > hi {
        hi
    } else {
        v
    }
}

/// Whether a paddle centre `(y, z)` keeps the whole footprint inside the grid.
pub open spec fn paddle_in_bounds(y: int, z: int) -> bool {
    PADDING <= y <= HEIGHT - 1 - PADDING && PADDING <= z <= DEEPTH - 1 - PADDING
}

/// A paddle centre `(height, depth)` after one step: `inc_x` by `step.1` when
/// `step.0` holds, else `inc_y` by `step.1`.
pub open spec fn paddle_step(c: (int, int), step: (bool, i16)) -> (int, int) {
    if step.0 {
        (c.0, clamp(c.1 + step.1, PADDING as int, DEEPTH - 1 - PADDING))
    } else {
        (clamp(c.0 + step.1, PADDING as int, HEIGHT - 1 - PADDING), c.1)
    }
}

/// A paddle centre after a sequence of steps.
pub open spec fn paddle_moved_along(c: (int, int), steps: Seq<(bool, i16)>) -> (int, int)
    decreases steps.len(),
{
    if steps.len() == 0 {
        c
    } else {
        paddle_step(paddle_moved_along(c, steps.drop_last()), steps.last())
    }
}

/// Whatever the sequence of steps, a paddle's footprint stays inside its face.
pub proof fn lemma_paddle_moves_stay_in_bounds(c: (int, int), steps: Seq<(bool, i16)>)
    requires
        paddle_in_bounds(c.0, c.1),
    ensures
        forall|k: int|
            0 <= k <= steps.len() ==> {
                let q = #[trigger] paddle_moved_along(c, steps.take(k));
                paddle_in_bounds(q.0, q.1)
            },
    decreases steps.len(),
{
    assert forall|k: int| 0 <= k <= steps.len() implies {
        let q = #[trigger] paddle_moved_along(c, steps.take(k));
        paddle_in_bounds(q.0, q.1)
    } by {
        lemma_paddle_prefix_in_bounds(c, steps.take(k));
    }
}

proof fn lemma_paddle_prefix_in_bounds(c: (int, int), steps: Seq<(bool, i16)>)
    requires
        paddle_in_bounds(c.0, c.1),
    ensures
        paddle_in_bounds(paddle_moved_along(c, steps).0, paddle_moved_along(c, steps).1),
    decreases steps.len(),
{
    if steps.len() > 0 {
        lemma_paddle_prefix_in_bounds(c, steps.drop_last());
    }
}

/// The face of the grid that a paddle guards.
#[derive(Debug, Clone, Copy, PartialEq, Eq, Structural)]
pub enum PlayerSite {
    Left,
    Right,
}

impl PlayerSite {
    /// The two adjacent x planes that the paddle occupies, the outer one first.
    pub open spec fn spec_x(&self) -> (u8, u8) {
        match self {
            PlayerSite::Left => (0, 1),
            PlayerSite::Right => ((WIDTH - 1) as u8, (WIDTH - 2) as u8),
        }
    }

    pub fn get_x(&self) -> (r: (u8, u8))
        ensures
            r == self.spec_x(),
    {
        match self {
            PlayerSite::Left => (0, 1),
            PlayerSite::Right => (WIDTH - 1, WIDTH - 2),
        }
    }
}

/// A paddle centre: `x` along the depth axis, `y` along the height axis.
#[derive(Debug, Clone, Copy, PartialEq, Eq, Structural)]
pub struct Position {
    pub x: u8,
    pub y: u8,
}

impl Position {
    /// The centre of the paddle's face.
    pub fn centre() -> (p: Self)
        ensures
            p == (Position { x: DEEPTH / 2, y: HEIGHT / 2 }),
    {
        Position { x: DEEPTH / 2, y: HEIGHT / 2 }
    }
}

/// A paddle on one face of the grid.
#[derive(Debug)]
pub struct Player {
    pub(crate) color: Rgb,
    pub(crate) position: Position,
    pub(crate) site: PlayerSite,
}

impl Player {
    #[verifier::type_invariant]
    pub(crate) closed spec fn inv(self) -> bool {
        paddle_in_bounds(self.position.y as int, self.position.x as int)
    }

    /// The paddle's colour.
    pub open(crate) spec fn spec_paint(&self) -> Rgb {
        self.color
    }

    /// The face that the paddle guards.
    pub open(crate) spec fn spec_site(&self) -> PlayerSite {
        self.site
    }

    /// The paddle centre along the height axis.
    pub open(crate) spec fn spec_height(&self) -> u8 {
        self.position.y
    }

    /// The paddle centre along the depth axis.
    pub open(crate) spec fn spec_depth(&self) -> u8 {
        self.position.x
    }

    /// The paddle's x planes, its height coordinate and its depth coordinate.
    pub open spec fn spec_full_position(&self) -> ((u8, u8), u8, u8) {
        (self.spec_site().spec_x(), self.spec_height(), self.spec_depth())
    }

    /// Whether the paddle has the colour, face and centre given.
    pub open spec fn is_paddle(&self, color: Rgb, site: PlayerSite, height: int, depth: int) -> bool {
        self.spec_paint() == color && self.spec_site() == site && self.spec_height() == height
            && self.spec_depth() == depth
    }

    /// The paddle of player 1, green, centred on the left face.
    pub fn player_1() -> (p: Self)
        ensures
            p.is_paddle(Rgb(22, 163, 74), PlayerSite::Left, (HEIGHT / 2) as int, (DEEPTH / 2) as int),
    {
        Player { color: Rgb::green(), position: Position::centre(), site: PlayerSite::Left }
    }

    /// The paddle of player 2, yellow, centred on the right face.
    pub fn player_2() -> (p: Self)
        ensures
            p.is_paddle(Rgb(234, 179, 8), PlayerSite::Right, (HEIGHT / 2) as int, (DEEPTH / 2) as int),
    {
        Player { color: Rgb::yellow(), position: Position::centre(), site: PlayerSite::Right }
    }

    /// The paddle's x planes, its height coordinate and its depth coordinate.
    pub fn full_position(&self) -> (r: ((u8, u8), u8, u8))
        ensures
            r == self.spec_full_position(),
            paddle_in_bounds(r.1 as int, r.2 as int),
    {
        proof {
            use_type_invariant(self);
        }
        (self.site.get_x(), self.position.y, self.position.x)
    }

    /// Draws the footprint on both of the paddle's x planes, the outer one first.
    /// A paddle always fits in the grid, so this always succeeds.
    pub fn draw_pad(&self, voxelbox: &mut Voxelbox) -> (r: Result<(), OutOfBounds>)
        requires
            old(voxelbox).wf(),
        ensures
            r is Ok,
            final(voxelbox).wf(),
            final(voxelbox).spec_ip() == old(voxelbox).spec_ip(),
            final(voxelbox).spec_port() == old(voxelbox).spec_port(),
            final(voxelbox)@ == paddle_picture(old(voxelbox)@, self),
    {
        proof {
            use_type_invariant(self);
        }
        let (x1, x2) = self.site.get_x();
        pad::draw_pad(voxelbox, self.color, x1, self.position.y, self.position.x)?;
        pad::draw_pad(voxelbox, self.color, x2, self.position.y, self.position.x)
    }

    /// Moves the paddle along the depth axis by `x`, stopping at the edges.
    pub fn inc_x(&mut self, x: i16)
        ensures
            final(self).is_paddle(
                old(self).spec_color(),
                old(self).spec_site(),
                old(self).spec_height() as int,
                clamp(old(self).spec_depth() + x, PADDING as int, DEEPTH - 1 - PADDING),
            ),
    {
        proof {
            use_type_invariant(&*self);
        }
        let lower: i32 = PADDING as i32;
        let upper: i32 = (DEEPTH - 1 - PADDING) as i32;
        let moved: i32 = self.position.x as i32 + x as i32;
        let v: i32 = if moved < lower {
            lower
        } else if moved > upper {
            upper
        } else {
            moved
        };
        self.position.x = v as u8;
    }

    /// Moves the paddle along the height axis by `y`, stopping at the edges.
    pub fn inc_y(&mut self, y: i16)
        ensures
            final(self).is_paddle(
                old(self).spec_color(),
                old(self).spec_site(),
                clamp(old(self).spec_height() + y, PADDING as int, HEIGHT - 1 - PADDING),
                old(self).spec_depth() as int,
            ),
    {
        proof {
            use_type_invariant(&*self);
        }
        let lower: i32 = PADDING as i32;
        let upper: i32 = (HEIGHT - 1 - PADDING) as i32;
        let moved: i32 = self.position.y as i32 + y as i32;
        let v: i32 = if moved < lower {
            lower
        } else if moved > upper {
            upper
        } else {
            moved
        };
        self.position.y = v as u8;
    }
}

/// The cells of a paddle: for each footprint offset, the cell in the outer
/// plane and then the cell in the inner plane.
pub open spec fn paddle_cells(x: (u8, u8), y: int, z: int) -> Seq<(usize, usize, usize)> {
    Seq::new(
        2 * footprint().len(),
        |k: int|
            {
                let d = footprint()[k / 2];
                let plane = if k % 2 == 0 {
                    x.0
                } else {
                    x.1
                };
                (plane as usize, (y + d.0) as usize, (z + d.1) as usize)
            },
    )
}

/// The grid after drawing paddle `p` over `leds`, plane by plane.
pub open spec fn paddle_picture(leds: Seq<Rgb>, p: &Player) -> Seq<Rgb> {
    let (x1, x2) = p.spec_site().spec_x();
    let y = p.spec_height() as int;
    let z = p.spec_depth() as int;
    painted(
        painted(leds, pad_plane(x1 as int, y, z), p.spec_color()),
        pad_plane(x2 as int, y, z),
        p.spec_color(),
    )
}

impl Draw for Player {
    open spec fn spec_color(&self) -> Rgb {
        self.spec_paint()
    }

    open spec fn cells(&self) -> Seq<(usize, usize, usize)> {
        paddle_cells(self.spec_site().spec_x(), self.spec_height() as int, self.spec_depth() as int)
    }

    fn color(&self) -> (c: Rgb) {
        self.color
    }

    fn draw(&self) -> (r: Vec<(usize, usize, usize)>) {
        proof {
            use_type_invariant(self);
        }
        let (x1, x2) = self.site.get_x();
        let y = self.position.y;
        let z = self.position.x;
        let offsets = pad::deltas(Odd::new_panics(pad::SIZE));
        let mut r: Vec<(usize, usize, usize)> = Vec::new();
        let mut i: usize = 0;
        while i < offsets.len()
            invariant
                offsets@ == footprint(),
                i <= offsets@.len(),
                paddle_in_bounds(y as int, z as int),
                (x1, x2) == self.site.spec_x(),
                y == self.position.y,
                z == self.position.x,
                r@ == self.cells().take(2 * i),
            decreases offsets.len() - i,
        {
            let (dy, dz) = offsets[i];
            proof {
                pad::lemma_footprint_bounds(i as int);
            }
            let cy = (y as i16 + dy as i16) as usize;
            let cz = (z as i16 + dz as i16) as usize;
            r.push((x1 as usize, cy, cz));
            r.push((x2 as usize, cy, cz));
            proof {
                assert(r@ =~= self.cells().take(2 * i + 2));
            }
            i = i + 1;
        }
        proof {
            assert(r@ =~= self.cells());
        }
        r
    }
}

} // verus!
