use vstd::prelude::*;

use crate::color::Rgb;
use crate::game::player::clamp;
use crate::voxelbox::{Draw, DEEPTH, HEIGHT, WIDTH};

verus! {

/// Collisions that make up one speed-up step.
pub const COLLISIONS_UNTIL_SPEED_INC: u8 = 2;

/// Milliseconds between ball moves at serve.
pub const MAX_BALL_SLEEP_TIME: u64 = 600;

/// The floor that the movement interval approaches, in milliseconds.
pub const MIN_BALL_SLEEP_TIME: u64 = 300;

/// Span of the ball's cube along each axis.
pub const BALL_SIZE: u8 = 3;

/// Half the span of the ball's cube: `(BALL_SIZE - 1) / 2`.
pub const BALL_PADDING: u8 = 1;

/// Chances, out of `SPIN_ROLLS`, that a collision adds spin to a still axis.
pub const STRAIGHT_SPIN_CHANCE: u8 = 7;

pub const SLANTED_SPIN_CHANCE: u8 = 4;

pub const SPIN_ROLLS: u8 = 10;

/// The moving state of a ball.
#[derive(Debug, Clone, Copy)]
pub struct Motion {
    pub position: (u8, u8, u8),
    pub direction: (i8, i8, i8),
    pub collisions_since_speed_inc: u8,
    pub movement_intervall: u64,
}

/// Whether a coordinate keeps the ball's cube inside an axis of `extent` cells.
pub open spec fn ball_axis_ok(v: int, extent: int) -> bool {
    BALL_PADDING <= v <= extent - 1 - BALL_PADDING
}

/// Whether the ball's cube lies inside the grid.
pub open spec fn ball_in_bounds(p: (u8, u8, u8)) -> bool {
    ball_axis_ok(p.0 as int, WIDTH as int) && ball_axis_ok(p.1 as int, HEIGHT as int)
        && ball_axis_ok(p.2 as int, DEEPTH as int)
}

/// Whether a direction is usable: it always advances along x, and each part can
/// be negated.
pub open spec fn direction_ok(d: (i8, i8, i8)) -> bool {
    d.0 != 0 && d.0 > i8::MIN && d.1 > i8::MIN && d.2 > i8::MIN
}

/// The invariant of a ball's motion.
pub open spec fn motion_ok(m: Motion) -> bool {
    &&& ball_in_bounds(m.position)
    &&& direction_ok(m.direction)
    &&& m.collisions_since_speed_inc < COLLISIONS_UNTIL_SPEED_INC
    &&& MIN_BALL_SLEEP_TIME <= m.movement_intervall <= MAX_BALL_SLEEP_TIME
}

/// One coordinate after a move: the step, clamped so that the cube stays inside.
pub open spec fn moved_axis(v: int, d: int, extent: int) -> u8 {
    clamp(v + d, BALL_PADDING as int, extent - 1 - BALL_PADDING) as u8
}

/// The position after one move along `d`.
pub open spec fn moved(p: (u8, u8, u8), d: (i8, i8, i8)) -> (u8, u8, u8) {
    (
        moved_axis(p.0 as int, d.0 as int, WIDTH as int),
        moved_axis(p.1 as int, d.1 as int, HEIGHT as int),
        moved_axis(p.2 as int, d.2 as int, DEEPTH as int),
    )
}

/// `d` with the parts of the colliding axes negated.
pub open spec fn reflect(d: (i8, i8, i8), collisions: (bool, bool, bool)) -> (i8, i8, i8) {
    (
        (if collisions.0 {
            -d.0
        } else {
            d.0 as int
        }) as i8,
        (if collisions.1 {
            -d.1
        } else {
            d.1 as int
        }) as i8,
        (if collisions.2 {
            -d.2
        } else {
            d.2 as int
        }) as i8,
    )
}

/// The chance, out of `SPIN_ROLLS`, that a still axis picks up spin: higher when
/// the ball moves along x only.
pub open spec fn spin_chance(d: (i8, i8, i8)) -> u8 {
    if d.1 == 0 && d.2 == 0 {
        STRAIGHT_SPIN_CHANCE
    } else {
        SLANTED_SPIN_CHANCE
    }
}

/// One part of a direction after a spin draw: a still part whose roll falls under
/// the chance becomes a unit step, the other parts stay.
pub open spec fn spun(v: i8, roll: u8, up: bool, chance: u8) -> i8 {
    if v == 0 && roll < chance {
        if up {
            1i8
        } else {
            -1i8
        }
    } else {
        v
    }
}

/// The direction after a resolver pass: reflection, then, if anything collided,
/// spin on the axes that are still.
pub open spec fn deflected(d: (i8, i8, i8), collisions: (bool, bool, bool), spin: Spin) -> (
    i8,
    i8,
    i8,
) {
    let r = reflect(d, collisions);
    if collisions.0 || collisions.1 || collisions.2 {
        let chance = spin_chance(r);
        (r.0, spun(r.1, spin.y_roll, spin.y_up, chance), spun(r.2, spin.z_roll, spin.z_up, chance))
    } else {
        r
    }
}

/// The interval after a speed-up: a third of the margin above the floor, rounded
/// down to whole milliseconds, is taken off. An interval above the floor stays
/// above it.
pub open spec fn sped_up(interval: int) -> int {
    interval - (interval - MIN_BALL_SLEEP_TIME) / 3
}

/// The collision counter and movement interval after one collision.
pub open spec fn after_collision(m: Motion) -> Motion {
    if m.collisions_since_speed_inc + 1 >= COLLISIONS_UNTIL_SPEED_INC {
        Motion {
            collisions_since_speed_inc: 0,
            movement_intervall: sped_up(m.movement_intervall as int) as u64,
            ..m
        }
    } else {
        Motion { collisions_since_speed_inc: (m.collisions_since_speed_inc + 1) as u8, ..m }
    }
}

/// The position after a sequence of moves, one direction per move.
pub open spec fn moved_along(p: (u8, u8, u8), ds: Seq<(i8, i8, i8)>) -> (u8, u8, u8)
    decreases ds.len(),
{
    if ds.len() == 0 {
        p
    } else {
        moved(moved_along(p, ds.drop_last()), ds.last())
    }
}

/// Whatever the sequence of moves, the ball's cube stays inside the grid after
/// every move.
pub proof fn lemma_moves_stay_in_bounds(p: (u8, u8, u8), ds: Seq<(i8, i8, i8)>)
    requires
        ball_in_bounds(p),
    ensures
        forall|k: int| 0 <= k <= ds.len() ==> ball_in_bounds(#[trigger] moved_along(p, ds.take(k))),
    decreases ds.len(),
{
    assert forall|k: int| 0 <= k <= ds.len() implies ball_in_bounds(
        #[trigger] moved_along(p, ds.take(k)),
    ) by {
        if k > 0 {
            let prefix = ds.take(k);
            assert(prefix.drop_last() =~= ds.take(k - 1));
        }
    }
}

/// The collision counter and movement interval after `n` collisions.
pub open spec fn after_collisions(m: Motion, n: nat) -> Motion
    decreases n,
{
    if n == 0 {
        m
    } else {
        after_collision(after_collisions(m, (n - 1) as nat))
    }
}

/// Over any number of collisions the movement interval never grows and never
/// falls below `MIN_BALL_SLEEP_TIME`; an interval above that floor never reaches
/// it.
pub proof fn lemma_speed_monotonic(m: Motion, n: nat)
    requires
        motion_ok(m),
    ensures
        motion_ok(after_collisions(m, n)),
        MIN_BALL_SLEEP_TIME <= after_collisions(m, n).movement_intervall <= m.movement_intervall,
        m.movement_intervall > MIN_BALL_SLEEP_TIME ==> after_collisions(m, n).movement_intervall
            > MIN_BALL_SLEEP_TIME,
        n > 0 ==> after_collisions(m, n).movement_intervall <= after_collisions(
            m,
            (n - 1) as nat,
        ).movement_intervall,
    decreases n,
{
    if n > 0 {
        lemma_speed_monotonic(m, (n - 1) as nat);
    }
}

/// The outcome of the random draws behind one spin: a roll out of `SPIN_ROLLS`
/// and a sign for each of the y and z axes.
#[derive(Debug, Clone, Copy, PartialEq, Eq, Structural)]
pub struct Spin {
    pub y_roll: u8,
    pub y_up: bool,
    pub z_roll: u8,
    pub z_up: bool,
}

impl Spin {
    pub open spec fn wf(&self) -> bool {
        self.y_roll < SPIN_ROLLS && self.z_roll < SPIN_ROLLS
    }

    /// Draws every part at random.
    pub fn draw() -> (s: Spin)
        ensures
            s.wf(),
    {
        let y_roll = draw_below(SPIN_ROLLS);
        let y_up = draw_below(2) == 1;
        let z_roll = draw_below(SPIN_ROLLS);
        let z_up = draw_below(2) == 1;
        Spin { y_roll, y_up, z_roll, z_up }
    }
}

/// Relies on rand::random_range: a uniform draw from `0..bound`, which panics
/// only on an empty range.
#[verifier::external_body]
fn draw_below(bound: u8) -> (r: u8)
    requires
        bound > 0,
    ensures
        r < bound,
{
    rand::random_range(0..bound)
}

pub struct Ball {
    pub(crate) motion: Motion,
    pub(crate) color: Rgb,
}

impl Ball {
    #[verifier::type_invariant]
    pub(crate) closed spec fn inv(self) -> bool {
        motion_ok(self.motion)
    }

    /// The ball's moving state.
    pub open(crate) spec fn view(&self) -> Motion {
        self.motion
    }

    pub open(crate) spec fn spec_paint(&self) -> Rgb {
        self.color
    }

    /// A pink ball at the centre of the grid, moving along x by `x`, at the slowest
    /// speed.
    pub fn new_with_x(x: i8) -> (b: Self)
        requires
            x != 0,
            x > i8::MIN,
        ensures
            b@ == (Motion {
                position: ((WIDTH / 2) as u8, (HEIGHT / 2) as u8, (DEEPTH / 2) as u8),
                direction: (x, 0, 0),
                collisions_since_speed_inc: 0,
                movement_intervall: MAX_BALL_SLEEP_TIME,
            }),
            b.spec_paint() == Rgb(219, 39, 119),
    {
        Ball {
            motion: Motion {
                position: (WIDTH / 2, HEIGHT / 2, DEEPTH / 2),
                direction: (x, 0, 0),
                collisions_since_speed_inc: 0,
                movement_intervall: MAX_BALL_SLEEP_TIME,
            },
            color: Rgb::pink(),
        }
    }

    pub fn position(&self) -> (r: (u8, u8, u8))
        ensures
            r == self@.position,
            ball_in_bounds(r),
    {
        proof {
            use_type_invariant(self);
        }
        self.motion.position
    }

    pub fn direction(&self) -> (r: (i8, i8, i8))
        ensures
            r == self@.direction,
            direction_ok(r),
    {
        proof {
            use_type_invariant(self);
        }
        self.motion.direction
    }

    pub fn movement_intervall(&self) -> (r: u64)
        ensures
            r == self@.movement_intervall,
            MIN_BALL_SLEEP_TIME <= r <= MAX_BALL_SLEEP_TIME,
    {
        proof {
            use_type_invariant(self);
        }
        self.motion.movement_intervall
    }

    /// Takes one step along the direction, clamped to the grid on each axis.
    pub fn apply_movement(&mut self)
        ensures
            final(self)@ == (Motion { position: moved(old(self)@.position, old(self)@.direction), ..old(self)@ }),
            final(self).spec_paint() == old(self).spec_paint(),
    {
        proof {
            use_type_invariant(&*self);
        }
        let (x, y, z) = self.motion.position;
        let (dx, dy, dz) = self.motion.direction;
        let p = (
            step_axis(x, dx, WIDTH),
            step_axis(y, dy, HEIGHT),
            step_axis(z, dz, DEEPTH),
        );
        self.motion.position = p;
    }

    /// Counts a collision; every `COLLISIONS_UNTIL_SPEED_INC` collisions the ball
    /// speeds up.
    pub fn handle_collision(&mut self)
        ensures
            final(self)@ == after_collision(old(self)@),
            final(self).spec_paint() == old(self).spec_paint(),
    {
        proof {
            use_type_invariant(&*self);
        }
        let count = self.motion.collisions_since_speed_inc + 1;
        if count >= COLLISIONS_UNTIL_SPEED_INC {
            let current = self.motion.movement_intervall;
            self.motion.collisions_since_speed_inc = 0;
            self.motion.movement_intervall = current - (current - MIN_BALL_SLEEP_TIME) / 3;
        } else {
            self.motion.collisions_since_speed_inc = count;
        }
    }

    /// Reflects the colliding axes and, if anything collided, adds spin as `spin`
    /// decides.
    pub fn change_direction_with(&mut self, collisions: (bool, bool, bool), spin: &Spin)
        ensures
            final(self)@ == (Motion { direction: deflected(old(self)@.direction, collisions, *spin), ..old(self)@ }),
            final(self).spec_paint() == old(self).spec_paint(),
    {
        proof {
            use_type_invariant(&*self);
        }
        let (dx, dy, dz) = self.motion.direction;
        let rx: i8 = if collisions.0 {
            -dx
        } else {
            dx
        };
        let ry: i8 = if collisions.1 {
            -dy
        } else {
            dy
        };
        let rz: i8 = if collisions.2 {
            -dz
        } else {
            dz
        };
        if collisions.0 || collisions.1 || collisions.2 {
            let chance = if ry == 0 && rz == 0 {
                STRAIGHT_SPIN_CHANCE
            } else {
                SLANTED_SPIN_CHANCE
            };
            self.motion.direction = (
                rx,
                spin_part(ry, spin.y_roll, spin.y_up, chance),
                spin_part(rz, spin.z_roll, spin.z_up, chance),
            );
        } else {
            self.motion.direction = (rx, ry, rz);
        }
    }

    /// Reflects the colliding axes and, if anything collided, adds spin drawn at
    /// random.
    pub fn change_direction(&mut self, collisions: (bool, bool, bool))
        ensures
            exists|s: Spin|
                s.wf() && final(self)@ == (Motion {
                    direction: deflected(old(self)@.direction, collisions, s),
                    ..old(self)@
                }),
            final(self).spec_paint() == old(self).spec_paint(),
    {
        let spin = Spin::draw();
        self.change_direction_with(collisions, &spin);
    }
}

impl Default for Ball {
    /// The serve of the first rally: towards player 2.
    fn default() -> (b: Self)
        ensures
            b@ == (Motion {
                position: ((WIDTH / 2) as u8, (HEIGHT / 2) as u8, (DEEPTH / 2) as u8),
                direction: (1, 0, 0),
                collisions_since_speed_inc: 0,
                movement_intervall: MAX_BALL_SLEEP_TIME,
            }),
            b.spec_paint() == Rgb(219, 39, 119),
    {
        Ball::new_with_x(1)
    }
}

/// The cells of a ball at `p`: its centre, then its cube with x outermost and z
/// innermost.
pub open spec fn ball_cells(p: (u8, u8, u8)) -> Seq<(usize, usize, usize)> {
    Seq::new(
        (1 + BALL_SIZE * BALL_SIZE * BALL_SIZE) as nat,
        |k: int|
            if k == 0 {
                (p.0 as usize, p.1 as usize, p.2 as usize)
            } else {
                let j = k - 1;
                let dx = j / (BALL_SIZE * BALL_SIZE) as int - BALL_PADDING;
                let dy = (j / BALL_SIZE as int) % BALL_SIZE as int - BALL_PADDING;
                let dz = j % BALL_SIZE as int - BALL_PADDING;
                ((p.0 + dx) as usize, (p.1 + dy) as usize, (p.2 + dz) as usize)
            },
    )
}

impl Draw for Ball {
    open spec fn spec_color(&self) -> Rgb {
        self.spec_paint()
    }

    open spec fn cells(&self) -> Seq<(usize, usize, usize)> {
        ball_cells(self@.position)
    }

    fn color(&self) -> (c: Rgb) {
        self.color
    }

    fn draw(&self) -> (r: Vec<(usize, usize, usize)>) {
        proof {
            use_type_invariant(self);
        }
        let (x, y, z) = self.motion.position;
        let mut r: Vec<(usize, usize, usize)> = Vec::new();
        r.push((x as usize, y as usize, z as usize));
        let mut i: usize = 0;
        while i < 3
            invariant
                i <= 3,
                (x, y, z) == self@.position,
                ball_in_bounds(self@.position),
                r@ == self.cells().take(1 + 9 * i),
            decreases 3 - i,
        {
            let mut j: usize = 0;
            while j < 3
                invariant
                    i < 3,
                    j <= 3,
                    (x, y, z) == self@.position,
                    ball_in_bounds(self@.position),
                    r@ == self.cells().take(1 + 9 * i + 3 * j),
                decreases 3 - j,
            {
                let mut k: usize = 0;
                while k < 3
                    invariant
                        i < 3,
                        j < 3,
                        k <= 3,
                        (x, y, z) == self@.position,
                        ball_in_bounds(self@.position),
                        r@ == self.cells().take(1 + 9 * i + 3 * j + k),
                    decreases 3 - k,
                {
                    r.push((x as usize + i - 1, y as usize + j - 1, z as usize + k - 1));
                    proof {
                        let n = 1 + 9 * i + 3 * j + k;
                        assert((n - 1) / 9 == i && ((n - 1) / 3) % 3 == j && (n - 1) % 3 == k)
                            by (nonlinear_arith)
                            requires
                                n == 1 + 9 * i + 3 * j + k,
                                i < 3,
                                j < 3,
                                k < 3,
                        ;
                        assert(r@ =~= self.cells().take(n + 1));
                    }
                    k = k + 1;
                }
                j = j + 1;
            }
            i = i + 1;
        }
        proof {
            assert(r@ =~= self.cells());
        }
        r
    }
}

/// One coordinate after a step of `d`, clamped so that the cube stays inside an
/// axis of `extent` cells.
fn step_axis(v: u8, d: i8, extent: u8) -> (r: u8)
    requires
        extent > 2 * BALL_PADDING,
    ensures
        r == moved_axis(v as int, d as int, extent as int),
{
    let lower: i16 = BALL_PADDING as i16;
    let upper: i16 = (extent - 1 - BALL_PADDING) as i16;
    let next: i16 = v as i16 + d as i16;
    if next < lower {
        lower as u8
    } else if next > upper {
        upper as u8
    } else {
        next as u8
    }
}

fn spin_part(v: i8, roll: u8, up: bool, chance: u8) -> (r: i8)
    ensures
        r == spun(v, roll, up, chance),
{
    if v == 0 && roll < chance {
        if up {
            1
        } else {
            -1
        }
    } else {
        v
    }
}

} // verus!
