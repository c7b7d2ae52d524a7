use vstd::prelude::*;

use crate::color::Rgb;
use crate::odd::Odd;
use crate::voxelbox::{painted, Voxelbox, DEEPTH, HEIGHT, WIDTH};

verus! {

/// Span of a paddle's footprint along each free axis.
pub const SIZE: u8 = 5;

/// Half the span of a paddle's footprint: `(SIZE - 1) / 2`.
pub const PADDING: u8 = 2;

pub open spec fn abs(v: int) -> int {
    if v < 0 {
        -v
    } else {
        v
    }
}

/// Row `b` of the diamond of radius `p`: the offsets `(a, b)` with `|a| + |b| <= p`,
/// by increasing `a`.
pub open spec fn diamond_row(p: int, b: int) -> Seq<(i8, i8)> {
    let h = p - abs(b);
    Seq::new((2 * h + 1) as nat, |i: int| ((i - h) as i8, b as i8))
}

/// The first `n` rows of the diamond of radius `p`, from row `-p` upwards.
pub open spec fn diamond_rows(p: int, n: nat) -> Seq<(i8, i8)>
    decreases n,
{
    if n == 0 {
        Seq::empty()
    } else {
        diamond_rows(p, (n - 1) as nat) + diamond_row(p, n - 1 - p)
    }
}

/// The diamond of radius `p`, row by row.
pub open spec fn diamond(p: int) -> Seq<(i8, i8)> {
    diamond_rows(p, (2 * p + 1) as nat)
}

/// A paddle's footprint: the diamond whose radius is `PADDING`.
pub open spec fn footprint() -> Seq<(i8, i8)> {
    diamond(PADDING as int)
}

/// Every offset of the diamond of radius `p` lies within `p` steps of the centre.
pub proof fn lemma_diamond_rows_bounded(p: int, n: nat)
    requires
        0 <= p <= 127,
        n <= 2 * p + 1,
    ensures
        forall|i: int|
            0 <= i < diamond_rows(p, n).len() ==> abs(#[trigger] diamond_rows(p, n)[i].0 as int) + abs(
                diamond_rows(p, n)[i].1 as int,
            ) <= p,
    decreases n,
{
    if n > 0 {
        lemma_diamond_rows_bounded(p, (n - 1) as nat);
        let prev = diamond_rows(p, (n - 1) as nat);
        let row = diamond_row(p, n - 1 - p);
        assert forall|i: int| 0 <= i < diamond_rows(p, n).len() implies abs(
            #[trigger] diamond_rows(p, n)[i].0 as int,
        ) + abs(diamond_rows(p, n)[i].1 as int) <= p by {
            if i >= prev.len() {
                assert(diamond_rows(p, n)[i] == row[i - prev.len()]);
            } else {
                assert(diamond_rows(p, n)[i] == prev[i]);
            }
        }
    }
}

pub(crate) proof fn lemma_footprint_bounds(i: int)
    requires
        0 <= i < footprint().len(),
    ensures
        abs(footprint()[i].0 as int) + abs(footprint()[i].1 as int) <= PADDING,
{
    lemma_diamond_rows_bounded(PADDING as int, 5);
}

/// The footprint table of a paddle: the thirteen offsets `(dy, dz)` with
/// `|dy| + |dz| <= 2`, row by row.
pub proof fn lemma_footprint_table()
    ensures
        footprint() == seq![
            (0i8, -2i8),
            (-1i8, -1i8),
            (0i8, -1i8),
            (1i8, -1i8),
            (-2i8, 0i8),
            (-1i8, 0i8),
            (0i8, 0i8),
            (1i8, 0i8),
            (2i8, 0i8),
            (-1i8, 1i8),
            (0i8, 1i8),
            (1i8, 1i8),
            (0i8, 2i8),
        ],
{
    reveal_with_fuel(diamond_rows, 6);
    assert(diamond_row(2, -2) =~= seq![(0i8, -2i8)]);
    assert(diamond_row(2, -1) =~= seq![(-1i8, -1i8), (0i8, -1i8), (1i8, -1i8)]);
    assert(diamond_row(2, 0) =~= seq![(-2i8, 0i8), (-1i8, 0i8), (0i8, 0i8), (1i8, 0i8), (2i8, 0i8)]);
    assert(diamond_row(2, 1) =~= seq![(-1i8, 1i8), (0i8, 1i8), (1i8, 1i8)]);
    assert(diamond_row(2, 2) =~= seq![(0i8, 2i8)]);
    assert(footprint() =~= seq![
        (0i8, -2i8),
        (-1i8, -1i8),
        (0i8, -1i8),
        (1i8, -1i8),
        (-2i8, 0i8),
        (-1i8, 0i8),
        (0i8, 0i8),
        (1i8, 0i8),
        (2i8, 0i8),
        (-1i8, 1i8),
        (0i8, 1i8),
        (1i8, 1i8),
        (0i8, 2i8),
    ]);
}

/// The offsets `(dy, dz)` of the diamond footprint of span `size`, row by row.
pub fn deltas(size: Odd<u8>) -> (r: Vec<(i8, i8)>)
    requires
        size.wf(),
    ensures
        r@ == diamond((size@ as int - 1) / 2),
{
    let p: i16 = ((size.value() - 1) / 2) as i16;
    let mut r: Vec<(i8, i8)> = Vec::new();
    let mut b: i16 = -p;
    while b <= p
        invariant
            0 <= p <= 127,
            -p <= b <= p + 1,
            r@ == diamond_rows(p as int, (b + p) as nat),
        decreases p + 1 - b,
    {
        let h: i16 = if b < 0 {
            p + b
        } else {
            p - b
        };
        let mut a: i16 = -h;
        while a <= h
            invariant
                0 <= p <= 127,
                -p <= b <= p,
                h == p - abs(b as int),
                -h <= a <= h + 1,
                r@ == diamond_rows(p as int, (b + p) as nat) + diamond_row(p as int, b as int).take(
                    (a + h) as int,
                ),
            decreases h + 1 - a,
        {
            r.push((a as i8, b as i8));
            proof {
                assert(diamond_row(p as int, b as int).take((a + h) as int).push((a as i8, b as i8))
                    =~= diamond_row(p as int, b as int).take((a + 1 + h) as int));
            }
            a = a + 1;
        }
        proof {
            assert(diamond_row(p as int, b as int).take((a + h) as int) =~= diamond_row(
                p as int,
                b as int,
            ));
            assert(diamond_rows(p as int, (b + 1 + p) as nat) == diamond_rows(
                p as int,
                (b + p) as nat,
            ) + diamond_row(p as int, b as int));
        }
        b = b + 1;
    }
    r
}

#[derive(Debug)]
pub enum OutOfBounds {
    X,
    Y,
    Z,
}

/// The cells lit by a footprint centred on `(y, z)` in the plane `x`.
pub open spec fn pad_plane(x: int, y: int, z: int) -> Seq<(usize, usize, usize)> {
    footprint().map_values(|d: (i8, i8)| (x as usize, (y + d.0) as usize, (z + d.1) as usize))
}

/// Draws a paddle footprint centred on `(y, z)` in the plane `x`. The footprint
/// must fit in the grid: otherwise nothing is drawn and an error is returned,
/// checked in this order: `X` for a plane outside the grid, `Y` for a depth `z`
/// too near an edge, `Z` for a height `y` too near an edge.
pub fn draw_pad(voxelbox: &mut Voxelbox, color: Rgb, x: u8, y: u8, z: u8) -> (r: Result<
    (),
    OutOfBounds,
>)
    requires
        old(voxelbox).wf(),
    ensures
        final(voxelbox).wf(),
        final(voxelbox).spec_ip() == old(voxelbox).spec_ip(),
        final(voxelbox).spec_port() == old(voxelbox).spec_port(),
        x >= WIDTH ==> r matches Err(OutOfBounds::X),
        x < WIDTH && !(PADDING <= z < DEEPTH - PADDING) ==> r matches Err(OutOfBounds::Y),
        x < WIDTH && PADDING <= z < DEEPTH - PADDING && !(PADDING <= y < HEIGHT - PADDING)
            ==> r matches Err(OutOfBounds::Z),
        r is Err ==> final(voxelbox)@ == old(voxelbox)@,
        r is Ok <==> x < WIDTH && PADDING <= z < DEEPTH - PADDING && PADDING <= y < HEIGHT
            - PADDING,
        r is Ok ==> final(voxelbox)@ == painted(old(voxelbox)@, pad_plane(x as int, y as int, z as int), color),
{
    if x >= WIDTH {
        return Err(OutOfBounds::X);
    }
    if !(PADDING <= z && z < DEEPTH - PADDING) {
        return Err(OutOfBounds::Y);
    }
    if !(PADDING <= y && y < HEIGHT - PADDING) {
        return Err(OutOfBounds::Z);
    }
    let offsets = deltas(Odd::new_panics(SIZE));
    let mut cells: Vec<(usize, usize, usize)> = Vec::new();
    let mut i: usize = 0;
    while i < offsets.len()
        invariant
            offsets@ == footprint(),
            i <= offsets@.len(),
            x < WIDTH,
            PADDING <= z < DEEPTH - PADDING,
            PADDING <= y < HEIGHT - PADDING,
            cells@ == pad_plane(x as int, y as int, z as int).take(i as int),
        decreases offsets.len() - i,
    {
        let (dy, dz) = offsets[i];
        proof {
            lemma_footprint_bounds(i as int);
        }
        let cy = (y as i16 + dy as i16) as usize;
        let cz = (z as i16 + dz as i16) as usize;
        cells.push((x as usize, cy, cz));
        proof {
            assert(cells@ =~= pad_plane(x as int, y as int, z as int).take(i + 1));
        }
        i = i + 1;
    }
    proof {
        assert(cells@ =~= pad_plane(x as int, y as int, z as int));
    }
    voxelbox.paint(&cells, color);
    Ok(())
}

} // verus!
