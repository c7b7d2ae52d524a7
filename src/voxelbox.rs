use vstd::prelude::*;

use crate::color::Rgb;

verus! {

/// Cells along the x axis (between the two paddles).
pub const WIDTH: u8 = 20;

/// Cells along the y axis.
pub const HEIGHT: u8 = 20;

/// Cells along the z axis.
pub const DEEPTH: u8 = 12;

/// Number of cells in the grid: `WIDTH * HEIGHT * DEEPTH`.
pub const LED_COUNT: usize = 4800;

/// Whether a cell lies inside the grid.
pub open spec fn in_grid(x: int, y: int, z: int) -> bool {
    0 <= x < WIDTH && 0 <= y < HEIGHT && 0 <= z < DEEPTH
}

/// Where a cell is stored: depth outermost, then height, then width.
pub open spec fn led_index(x: int, y: int, z: int) -> int {
    (z * HEIGHT + y) * WIDTH + x
}

proof fn lemma_led_index_in_range(x: int, y: int, z: int)
    requires
        in_grid(x, y, z),
    ensures
        0 <= led_index(x, y, z) < LED_COUNT,
{
    assert(0 <= z * 20 + y < 240) by (nonlinear_arith)
        requires
            0 <= y < 20,
            0 <= z < 12,
    ;
    assert(0 <= (z * 20 + y) * 20 + x < 4800) by (nonlinear_arith)
        requires
            0 <= z * 20 + y < 240,
            0 <= x < 20,
    ;
}

/// Index `k` is where the cell `(k % WIDTH, (k / WIDTH) % HEIGHT, k / (WIDTH * HEIGHT))`
/// is stored.
proof fn lemma_cell_of_index(k: int)
    requires
        0 <= k < LED_COUNT,
    ensures
        in_grid(k % 20, (k / 20) % 20, k / 400),
        led_index(k % 20, (k / 20) % 20, k / 400) == k,
{
    assert(0 <= k / 400 < 12 && 0 <= (k / 20) % 20 < 20 && 0 <= k % 20 < 20) by (nonlinear_arith)
        requires
            0 <= k < 4800,
    ;
    assert((k / 400 * 20 + (k / 20) % 20) * 20 + k % 20 == k) by (nonlinear_arith)
        requires
            0 <= k,
    ;
}

/// The colour of every cell of the grid, in `led_index` order.
#[derive(Clone, Debug, PartialEq, Eq)]
struct Leds(Vec<Rgb>);

impl Leds {
    spec fn wf(&self) -> bool {
        self.0@.len() == LED_COUNT
    }

    spec fn view(&self) -> Seq<Rgb> {
        self.0@
    }

    fn new(color: Rgb) -> (l: Self)
        ensures
            l.wf(),
            l@ == Seq::new(LED_COUNT as nat, |i: int| color),
    {
        let mut cells: Vec<Rgb> = Vec::new();
        let mut i: usize = 0;
        while i < LED_COUNT
            invariant
                i <= LED_COUNT,
                cells@ == Seq::new(i as nat, |k: int| color),
            decreases LED_COUNT - i,
        {
            cells.push(color);
            i = i + 1;
        }
        Leds(cells)
    }

    fn read_at(&self, x: usize, y: usize, z: usize) -> (r: Option<Rgb>)
        requires
            self.wf(),
        ensures
            r == if in_grid(x as int, y as int, z as int) {
                Some(self@[led_index(x as int, y as int, z as int)])
            } else {
                None
            },
    {
        if x < WIDTH as usize && y < HEIGHT as usize && z < DEEPTH as usize {
            proof {
                lemma_led_index_in_range(x as int, y as int, z as int);
            }
            let i = (z * HEIGHT as usize + y) * WIDTH as usize + x;
            Some(self.0[i])
        } else {
            None
        }
    }

    fn set_led(&mut self, x: usize, y: usize, z: usize, color: Rgb)
        requires
            old(self).wf(),
            in_grid(x as int, y as int, z as int),
        ensures
            final(self).wf(),
            final(self)@ == old(self)@.update(led_index(x as int, y as int, z as int), color),
    {
        proof {
            lemma_led_index_in_range(x as int, y as int, z as int);
        }
        let i = (z * HEIGHT as usize + y) * WIDTH as usize + x;
        self.0.set(i, color);
    }
}

/// A drawable object: its colour and the cells that it lights.
pub trait Draw {
    spec fn spec_color(&self) -> Rgb;

    spec fn cells(&self) -> Seq<(usize, usize, usize)>;

    fn color(&self) -> (c: Rgb)
        ensures
            c == self.spec_color(),
    ;

    fn draw(&self) -> (r: Vec<(usize, usize, usize)>)
        ensures
            r@ == self.cells(),
    ;
}

/// Whether one of the first `n` cells lies in the grid and is stored at index `k`.
pub open spec fn paints(cells: Seq<(usize, usize, usize)>, n: int, k: int) -> bool {
    exists|j: int|
        0 <= j < n && in_grid(cells[j].0 as int, cells[j].1 as int, cells[j].2 as int)
            && led_index(cells[j].0 as int, cells[j].1 as int, cells[j].2 as int) == k
}

/// The grid after painting the in-grid cells of `cells` with `color` over `leds`.
pub open spec fn painted(leds: Seq<Rgb>, cells: Seq<(usize, usize, usize)>, color: Rgb) -> Seq<Rgb> {
    Seq::new(
        leds.len(),
        |k: int|
            if paints(cells, cells.len() as int, k) {
                color
            } else {
                leds[k]
            },
    )
}

/// The grid with every cell black.
pub open spec fn dark() -> Seq<Rgb> {
    Seq::new(LED_COUNT as nat, |k: int| Rgb(0, 0, 0))
}

#[derive(Debug)]
pub enum VoxelBoxSendError {
    BindError,
    SendError,
}

/// The display: its network address and the frame buffer pushed to it.
#[derive(Clone, Debug, PartialEq, Eq)]
pub struct Voxelbox {
    ip: String,
    port: u16,
    leds: Leds,
}

impl Voxelbox {
    /// The frame buffer, in `led_index` order.
    pub closed spec fn view(&self) -> Seq<Rgb> {
        self.leds@
    }

    pub closed spec fn spec_ip(&self) -> Seq<char> {
        self.ip@
    }

    pub closed spec fn spec_port(&self) -> u16 {
        self.port
    }

    /// A valid display holds one colour per cell of the grid.
    pub open spec fn wf(&self) -> bool {
        self@.len() == LED_COUNT
    }

    /// The colour of a cell of the grid.
    pub open spec fn led_at(&self, x: int, y: int, z: int) -> Rgb {
        self@[led_index(x, y, z)]
    }

    pub fn new(ip: String, port: u16) -> (v: Self)
        ensures
            v.wf(),
            v@ == dark(),
            v.spec_ip() == ip@,
            v.spec_port() == port,
    {
        Voxelbox { ip, port, leds: Leds::new(Rgb::black()) }
    }

    pub fn ip(&self) -> (r: &str)
        ensures
            r@ == self.spec_ip(),
    {
        self.ip.as_str()
    }

    pub fn port(&self) -> (r: u16)
        ensures
            r == self.spec_port(),
    {
        self.port
    }

    /// Turns every cell black.
    pub fn reset_leds(&mut self)
        ensures
            final(self).wf(),
            final(self)@ == dark(),
            final(self).spec_ip() == old(self).spec_ip(),
            final(self).spec_port() == old(self).spec_port(),
    {
        self.leds = Leds::new(Rgb::black());
    }

    /// Sets one cell of the grid.
    pub fn set_led(&mut self, x: u8, y: u8, z: u8, color: Rgb)
        requires
            old(self).wf(),
            in_grid(x as int, y as int, z as int),
        ensures
            final(self).wf(),
            final(self)@ == old(self)@.update(led_index(x as int, y as int, z as int), color),
            final(self).spec_ip() == old(self).spec_ip(),
            final(self).spec_port() == old(self).spec_port(),
    {
        self.leds.set_led(x as usize, y as usize, z as usize, color);
    }

    /// Paints the cells of `object` in its colour; cells outside the grid are skipped.
    pub fn draw<T: Draw>(&mut self, object: &T)
        requires
            old(self).wf(),
        ensures
            final(self).wf(),
            final(self)@ == painted(old(self)@, object.cells(), object.spec_color()),
            final(self).spec_ip() == old(self).spec_ip(),
            final(self).spec_port() == old(self).spec_port(),
    {
        let color = object.color();
        let cells = object.draw();
        self.paint(&cells, color);
    }

    /// Paints `cells` with `color`; cells outside the grid are skipped.
    pub fn paint(&mut self, cells: &Vec<(usize, usize, usize)>, color: Rgb)
        requires
            old(self).wf(),
        ensures
            final(self).wf(),
            final(self)@ == painted(old(self)@, cells@, color),
            final(self).spec_ip() == old(self).spec_ip(),
            final(self).spec_port() == old(self).spec_port(),
    {
        let ghost start = self@;
        let mut i: usize = 0;
        while i < cells.len()
            invariant
                i <= cells.len(),
                self.wf(),
                self.spec_ip() == old(self).spec_ip(),
                self.spec_port() == old(self).spec_port(),
                start == old(self)@,
                self@.len() == start.len(),
                forall|k: int|
                    0 <= k < start.len() ==> #[trigger] self@[k] == if paints(cells@, i as int, k) {
                        color
                    } else {
                        start[k]
                    },
            decreases cells.len() - i,
        {
            let (x, y, z) = cells[i];
            if x < WIDTH as usize && y < HEIGHT as usize && z < DEEPTH as usize {
                proof {
                    lemma_led_index_in_range(x as int, y as int, z as int);
                }
                self.leds.set_led(x, y, z, color);
            }
            proof {
                assert forall|k: int| 0 <= k < start.len() implies #[trigger] self@[k] == if paints(
                    cells@,
                    i + 1,
                    k,
                ) {
                    color
                } else {
                    start[k]
                } by {
                    if paints(cells@, i as int, k) {
                        let j = choose|j: int|
                            0 <= j < i && in_grid(
                                cells@[j].0 as int,
                                cells@[j].1 as int,
                                cells@[j].2 as int,
                            ) && led_index(cells@[j].0 as int, cells@[j].1 as int, cells@[j].2 as int)
                                == k;
                        assert(0 <= j < i + 1);
                    }
                    if paints(cells@, i + 1, k) && !paints(cells@, i as int, k) {
                        let j = choose|j: int|
                            0 <= j < i + 1 && in_grid(
                                cells@[j].0 as int,
                                cells@[j].1 as int,
                                cells@[j].2 as int,
                            ) && led_index(cells@[j].0 as int, cells@[j].1 as int, cells@[j].2 as int)
                                == k;
                        assert(j == i);
                    }
                }
            }
            i = i + 1;
        }
        assert(self@ =~= painted(start, cells@, color));
    }

    /// The bytes pushed to the display: one red, green, blue triple per cell, depth
    /// outermost, then height, then width.
    pub fn frame(&self) -> (r: Vec<u8>)
        requires
            self.wf(),
        ensures
            r@.len() == 3 * LED_COUNT,
            forall|k: int|
                0 <= k < LED_COUNT ==> {
                    &&& #[trigger] r@[3 * k] == self@[k].0
                    &&& r@[3 * k + 1] == self@[k].1
                    &&& r@[3 * k + 2] == self@[k].2
                },
    {
        let mut data: Vec<u8> = Vec::new();
        let mut k: usize = 0;
        while k < LED_COUNT
            invariant
                self.wf(),
                k <= LED_COUNT,
                data@.len() == 3 * k,
                forall|j: int|
                    0 <= j < k ==> {
                        &&& #[trigger] data@[3 * j] == self@[j].0
                        &&& data@[3 * j + 1] == self@[j].1
                        &&& data@[3 * j + 2] == self@[j].2
                    },
            decreases LED_COUNT - k,
        {
            let x = k % WIDTH as usize;
            let y = (k / WIDTH as usize) % HEIGHT as usize;
            let z = k / (WIDTH as usize * HEIGHT as usize);
            proof {
                lemma_cell_of_index(k as int);
            }
            let c = match self.leds.read_at(x, y, z) {
                Some(c) => c,
                None => Rgb::black(),
            };
            assert(c == self@[k as int]);
            data.push(c.0);
            data.push(c.1);
            data.push(c.2);
            k = k + 1;
        }
        data
    }
}

} // verus!
