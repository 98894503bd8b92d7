//! The CPU rasterizer: each grain becomes a list of pixel writes over its
//! bounding box, and the writes are alpha-composited in order onto a fully
//! transparent canvas.

use vstd::prelude::*;
use crate::canvas::{get_pixel, into_raw, new_canvas, put_pixel, rgba_height, rgba_samples, rgba_width, RgbaCanvas};
use crate::fixed::{is_isqrt, isqrt_exact, isqrt_spec, lemma_isqrt_unique};
use crate::model::{grain_wf, grains_wf, EdgeType, Grain, Rgb, MAX_SHAPE, MAX_SIZE, MIN_SHAPE};

verus! {

/// What the rasterizer needs besides the grains: the canvas size, the edge
/// profile of the stock and the grain colour.
#[derive(Clone, Copy, Debug, PartialEq, Eq)]
pub struct RasterSpec {
    pub width: u32,
    pub height: u32,
    pub edge: EdgeType,
    pub color: Rgb,
}

/// One pixel that a grain covers, with the colour and alpha to blend there.
#[derive(Clone, Copy, Debug, PartialEq, Eq)]
pub struct PixelWrite {
    pub x: u32,
    pub y: u32,
    pub r: u8,
    pub g: u8,
    pub b: u8,
    pub a: u8,
}

/// Alpha writes at or below this level are dropped (about 4% of full scale).
pub const ALPHA_FLOOR: u64 = 10;

/// Opacity boosted for visibility: times 3 below 0.2, times 2 below 0.4,
/// times 1.5 otherwise, permille.
pub open spec fn boosted_opacity(opacity: int) -> int {
    if opacity < 200 {
        opacity * 3
    } else if opacity < 400 {
        opacity * 2
    } else {
        opacity * 3 / 2
    }
}

/// A grain's full alpha on the 0..=255 scale: the boosted opacity, at least
/// 40 and at most 255.
pub open spec fn grain_alpha(opacity: int) -> int {
    let a = boosted_opacity(opacity) * 255 / 1000;
    if a < 40 {
        40
    } else if a > 255 {
        255
    } else {
        a
    }
}

/// Alpha at distance `dist` from the centre of a grain of size `size` (both
/// in thousandths of a pixel), for a grain whose full alpha is `alpha`.
pub open spec fn edge_alpha(edge: EdgeType, alpha: int, dist: int, size: int) -> int {
    match edge {
        EdgeType::Sharp => if 10 * dist > 9 * size {
            alpha * (10 * (size - dist)) / size
        } else {
            alpha
        },
        EdgeType::Soft => if 10 * dist > 7 * size {
            alpha * (10 * (size - dist)) / (3 * size)
        } else {
            alpha
        },
        EdgeType::Hard => if 100 * dist > 95 * size {
            0
        } else {
            alpha
        },
    }
}

/// Whole-pixel radius of a grain's bounding box.
pub open spec fn radius(g: Grain) -> int {
    g.size as int / 1000
}

/// Side of a grain's bounding box in pixels.
pub open spec fn box_side(g: Grain) -> int {
    2 * radius(g) + 1
}

/// Distance from the grain centre of a pixel offset `(dx, dy)`, in
/// thousandths of a pixel, with the horizontal offset divided by the shape
/// factor.
pub open spec fn footprint_distance(g: Grain, dx: int, dy: int) -> int {
    let adx = if dx < 0 { -dx } else { dx };
    let ady = if dy < 0 { -dy } else { dy };
    let sx = adx * 1_000_000 / (g.shape_factor as int);
    let sy = ady * 1000;
    isqrt_spec(sx * sx + sy * sy)
}

/// The write, if any, for cell `k` of a grain's bounding box, cells counted
/// row by row from the top-left corner.
pub open spec fn cell_write(g: Grain, rs: RasterSpec, k: int) -> Option<PixelWrite> {
    let side = box_side(g);
    let dy = k / side - radius(g);
    let dx = k % side - radius(g);
    let px = g.x / 1000 + dx;
    let py = g.y / 1000 + dy;
    if 0 <= px < rs.width && 0 <= py < rs.height {
        let dist = footprint_distance(g, dx, dy);
        if dist <= g.size {
            let a = edge_alpha(rs.edge, grain_alpha(g.opacity as int), dist, g.size as int);
            if a > ALPHA_FLOOR {
                Some(
                    PixelWrite {
                        x: px as u32,
                        y: py as u32,
                        r: rs.color.r,
                        g: rs.color.g,
                        b: rs.color.b,
                        a: a as u8,
                    },
                )
            } else {
                None
            }
        } else {
            None
        }
    } else {
        None
    }
}

/// The writes of the first `k` cells of a grain's bounding box.
pub open spec fn cell_writes_upto(g: Grain, rs: RasterSpec, k: nat) -> Seq<PixelWrite>
    decreases k,
{
    if k == 0 {
        Seq::empty()
    } else {
        let prev = cell_writes_upto(g, rs, (k - 1) as nat);
        match cell_write(g, rs, k - 1) {
            Some(p) => prev.push(p),
            None => prev,
        }
    }
}

/// All writes of one grain.
pub open spec fn grain_writes(g: Grain, rs: RasterSpec) -> Seq<PixelWrite> {
    cell_writes_upto(g, rs, (box_side(g) * box_side(g)) as nat)
}

/// All writes of a population, grain after grain.
pub open spec fn writes_spec(gs: Seq<Grain>, rs: RasterSpec) -> Seq<PixelWrite>
    decreases gs.len(),
{
    if gs.len() == 0 {
        Seq::empty()
    } else {
        writes_spec(gs.drop_last(), rs) + grain_writes(gs.last(), rs)
    }
}

/// One colour channel blended: `base * (1 - a) + new * a`, rounded down.
pub open spec fn blend_channel(base: int, new: int, a: int) -> int {
    (base * (255 - a) + new * a) / 255
}

/// A pixel's four samples after alpha-over blending of a write: each colour
/// channel blended, alpha the larger of the two.
pub open spec fn blend_spec(base: Seq<u8>, p: PixelWrite) -> Seq<u8> {
    seq![
        blend_channel(base[0] as int, p.r as int, p.a as int) as u8,
        blend_channel(base[1] as int, p.g as int, p.a as int) as u8,
        blend_channel(base[2] as int, p.b as int, p.a as int) as u8,
        if base[3] >= p.a { base[3] } else { p.a },
    ]
}

/// A canvas after one write; writes outside the canvas leave it as it is.
pub open spec fn apply_write(canvas: Seq<u8>, width: int, height: int, p: PixelWrite) -> Seq<u8> {
    if p.x < width && p.y < height {
        let i = (p.y * width + p.x) * 4;
        canvas.subrange(0, i) + blend_spec(canvas.subrange(i, i + 4), p) + canvas.subrange(
            i + 4,
            canvas.len() as int,
        )
    } else {
        canvas
    }
}

/// A canvas after a sequence of writes, in order.
pub open spec fn canvas_after(canvas: Seq<u8>, width: int, height: int, ws: Seq<PixelWrite>) -> Seq<
    u8,
>
    decreases ws.len(),
{
    if ws.len() == 0 {
        canvas
    } else {
        apply_write(canvas_after(canvas, width, height, ws.drop_last()), width, height, ws.last())
    }
}

/// A fully transparent canvas.
pub open spec fn blank_canvas(width: int, height: int) -> Seq<u8> {
    Seq::new((width * height * 4) as nat, |i: int| 0u8)
}

/// The RGBA bytes of a rendered population.
pub open spec fn render_spec(gs: Seq<Grain>, rs: RasterSpec) -> Seq<u8> {
    canvas_after(
        blank_canvas(rs.width as int, rs.height as int),
        rs.width as int,
        rs.height as int,
        writes_spec(gs, rs),
    )
}

fn grain_alpha_exec(opacity: u64) -> (r: u64)
    requires
        opacity <= 1000,
    ensures
        r == grain_alpha(opacity as int),
        40 <= r <= 255,
{
    let boosted: u64 = if opacity < 200 {
        opacity * 3
    } else if opacity < 400 {
        opacity * 2
    } else {
        opacity * 3 / 2
    };
    let a = boosted * 255 / 1000;
    if a < 40 {
        40
    } else if a > 255 {
        255
    } else {
        a
    }
}

fn edge_alpha_exec(edge: EdgeType, alpha: u64, dist: u64, size: u64) -> (r: u64)
    requires
        alpha <= 255,
        dist <= size,
        size > 0,
        size <= MAX_SIZE,
    ensures
        r == edge_alpha(edge, alpha as int, dist as int, size as int),
        r <= alpha,
{
    match edge {
        EdgeType::Sharp => {
            if 10 * dist > 9 * size {
                assert(alpha * (10 * (size - dist)) <= alpha * size) by (nonlinear_arith)
                    requires
                        10 * dist > 9 * size,
                        dist <= size,
                ;
                assert(alpha * size <= 255 * MAX_SIZE) by (nonlinear_arith)
                    requires
                        alpha <= 255,
                        size <= MAX_SIZE,
                ;
                assert(alpha * (10 * (size - dist)) / (size as int) <= alpha) by (nonlinear_arith)
                    requires
                        alpha * (10 * (size - dist)) <= alpha * size,
                        size > 0,
                ;
                alpha * (10 * (size - dist)) / size
            } else {
                alpha
            }
        },
        EdgeType::Soft => {
            if 10 * dist > 7 * size {
                assert(alpha * (10 * (size - dist)) <= alpha * (3 * size)) by (nonlinear_arith)
                    requires
                        10 * dist > 7 * size,
                        dist <= size,
                ;
                assert(alpha * (3 * size) <= 255 * 3 * MAX_SIZE) by (nonlinear_arith)
                    requires
                        alpha <= 255,
                        size <= MAX_SIZE,
                ;
                assert(alpha * (10 * (size - dist)) / (3 * size as int) <= alpha) by (nonlinear_arith)
                    requires
                        alpha * (10 * (size - dist)) <= alpha * (3 * size),
                        size > 0,
                ;
                alpha * (10 * (size - dist)) / (3 * size)
            } else {
                alpha
            }
        },
        EdgeType::Hard => {
            if 100 * dist > 95 * size {
                0
            } else {
                alpha
            }
        },
    }
}

fn footprint_distance_exec(g: &Grain, dx: i64, dy: i64) -> (r: u64)
    requires
        MIN_SHAPE <= g.shape_factor <= MAX_SHAPE,
        -1000 <= dx <= 1000,
        -1000 <= dy <= 1000,
    ensures
        r == footprint_distance(*g, dx as int, dy as int),
{
    let adx: u64 = if dx < 0 { (-dx) as u64 } else { dx as u64 };
    let ady: u64 = if dy < 0 { (-dy) as u64 } else { dy as u64 };
    let sx: u64 = adx * 1_000_000 / g.shape_factor;
    assert(sx <= 20_000_000) by (nonlinear_arith)
        requires
            sx as int == (adx * 1_000_000) as int / g.shape_factor as int,
            adx <= 1000,
            g.shape_factor >= 50,
    ;
    let sy: u64 = ady * 1000;
    assert(sx * sx <= 400_000_000_000_000 && sy * sy <= 1_000_000_000_000) by (nonlinear_arith)
        requires
            sx <= 20_000_000,
            sy <= 1_000_000,
    ;
    isqrt_exact(sx * sx + sy * sy)
}

/// Rasterizes one cell of a grain's bounding box.
fn cell_write_exec(g: &Grain, rs: &RasterSpec, alpha: u64, k: u64) -> (r: Option<PixelWrite>)
    requires
        grain_wf(*g, rs.width as int, rs.height as int),
        alpha == grain_alpha(g.opacity as int),
        k < box_side(*g) * box_side(*g),
    ensures
        r == cell_write(*g, *rs, k as int),
{
    let rad: u64 = g.size / 1000;
    let side: u64 = 2 * rad + 1;
    assert(k / side < side) by (nonlinear_arith)
        requires
            k < side * side,
            side > 0,
    ;
    let dy: i64 = (k / side) as i64 - rad as i64;
    let dx: i64 = (k % side) as i64 - rad as i64;
    let px: i64 = (g.x / 1000) as i64 + dx;
    let py: i64 = (g.y / 1000) as i64 + dy;
    if 0 <= px && px < rs.width as i64 && 0 <= py && py < rs.height as i64 {
        let dist = footprint_distance_exec(g, dx, dy);
        if dist <= g.size {
            let a = edge_alpha_exec(rs.edge, alpha, dist, g.size);
            if a > ALPHA_FLOOR {
                Some(
                    PixelWrite {
                        x: px as u32,
                        y: py as u32,
                        r: rs.color.r,
                        g: rs.color.g,
                        b: rs.color.b,
                        a: a as u8,
                    },
                )
            } else {
                None
            }
        } else {
            None
        }
    } else {
        None
    }
}

/// The pixel writes of one grain: every pixel of its bounding box that lies
/// on the canvas, within the grain's anisotropic radius, and whose edge-shaded
/// alpha exceeds `ALPHA_FLOOR`.
pub fn render_grain_to_pixels(g: &Grain, rs: &RasterSpec) -> (r: Vec<PixelWrite>)
    requires
        grain_wf(*g, rs.width as int, rs.height as int),
    ensures
        r@ == grain_writes(*g, *rs),
{
    let alpha = grain_alpha_exec(g.opacity);
    let rad: u64 = g.size / 1000;
    let side: u64 = 2 * rad + 1;
    assert(side * side <= 2001 * 2001) by (nonlinear_arith)
        requires
            side <= 2001,
    ;
    let cells: u64 = side * side;
    let mut out: Vec<PixelWrite> = Vec::new();
    let mut k: u64 = 0;
    while k < cells
        invariant
            k <= cells,
            cells == box_side(*g) * box_side(*g),
            grain_wf(*g, rs.width as int, rs.height as int),
            alpha == grain_alpha(g.opacity as int),
            out@ == cell_writes_upto(*g, *rs, k as nat),
        decreases cells - k,
    {
        match cell_write_exec(g, rs, alpha, k) {
            Some(p) => out.push(p),
            None => {},
        }
        k = k + 1;
    }
    out
}

/// The writes of a population split at `i` are the writes of its two parts,
/// in order.
pub proof fn lemma_writes_split(gs: Seq<Grain>, i: int, rs: RasterSpec)
    requires
        0 <= i <= gs.len(),
    ensures
        writes_spec(gs, rs) == writes_spec(gs.subrange(0, i), rs) + writes_spec(
            gs.subrange(i, gs.len() as int),
            rs,
        ),
    decreases gs.len() - i,
{
    if i == gs.len() {
        assert(gs.subrange(0, i) =~= gs);
        assert(writes_spec(gs.subrange(i, gs.len() as int), rs) == Seq::<PixelWrite>::empty());
        assert(writes_spec(gs, rs) + Seq::<PixelWrite>::empty() =~= writes_spec(gs, rs));
    } else {
        let n = gs.len() as int;
        lemma_writes_split(gs.drop_last(), i, rs);
        let init = gs.drop_last();
        assert(init.subrange(0, i) =~= gs.subrange(0, i));
        let tail = gs.subrange(i, n);
        assert(tail.drop_last() =~= init.subrange(i, n - 1));
        assert(tail.last() == gs.last());
        assert(writes_spec(tail, rs) == writes_spec(tail.drop_last(), rs) + grain_writes(
            tail.last(),
            rs,
        ));
        assert(writes_spec(gs, rs) =~= writes_spec(gs.subrange(0, i), rs) + writes_spec(tail, rs));
    }
}

/// The pixel writes of a run of grains, grain after grain.
pub fn render_chunk(chunk: &[Grain], rs: &RasterSpec) -> (r: Vec<PixelWrite>)
    requires
        grains_wf(chunk@, rs.width as int, rs.height as int),
    ensures
        r@ == writes_spec(chunk@, *rs),
{
    let mut out: Vec<PixelWrite> = Vec::new();
    let mut i: usize = 0;
    while i < chunk.len()
        invariant
            i <= chunk@.len(),
            grains_wf(chunk@, rs.width as int, rs.height as int),
            out@ == writes_spec(chunk@.subrange(0, i as int), *rs),
        decreases chunk@.len() - i,
    {
        assert(grain_wf(chunk@[i as int], rs.width as int, rs.height as int));
        let ws = render_grain_to_pixels(&chunk[i], rs);
        let ghost before = out@;
        let mut j: usize = 0;
        while j < ws.len()
            invariant
                j <= ws@.len(),
                out@ == before + ws@.subrange(0, j as int),
            decreases ws@.len() - j,
        {
            out.push(ws[j]);
            j = j + 1;
            assert(out@ =~= before + ws@.subrange(0, j as int));
        }
        proof {
            let next = chunk@.subrange(0, i + 1);
            assert(next.drop_last() =~= chunk@.subrange(0, i as int));
            assert(ws@.subrange(0, ws@.len() as int) =~= ws@);
        }
        i = i + 1;
    }
    assert(chunk@.subrange(0, chunk@.len() as int) =~= chunk@);
    out
}

/// Alpha-over blend of one write onto a pixel's four samples.
pub fn blend_pixel(base: [u8; 4], p: &PixelWrite) -> (r: [u8; 4])
    ensures
        r@ == blend_spec(base@, *p),
{
    let a = p.a as u32;
    let inv = 255 - a;
    assert(base[0] * inv + p.r * a <= 255 * 255 && base[1] * inv + p.g * a <= 255 * 255 && base[2]
        * inv + p.b * a <= 255 * 255) by (nonlinear_arith)
        requires
            base[0] < 256,
            base[1] < 256,
            base[2] < 256,
            p.r < 256,
            p.g < 256,
            p.b < 256,
            inv + a == 255,
    ;
    let r0 = ((base[0] as u32 * inv + p.r as u32 * a) / 255) as u8;
    let r1 = ((base[1] as u32 * inv + p.g as u32 * a) / 255) as u8;
    let r2 = ((base[2] as u32 * inv + p.b as u32 * a) / 255) as u8;
    let r3 = if base[3] >= p.a {
        base[3]
    } else {
        p.a
    };
    assert(blend_channel(base[0] as int, p.r as int, p.a as int) < 256) by (nonlinear_arith)
        requires
            base[0] < 256,
            p.r < 256,
            p.a < 256,
    ;
    assert(blend_channel(base[1] as int, p.g as int, p.a as int) < 256) by (nonlinear_arith)
        requires
            base[1] < 256,
            p.g < 256,
            p.a < 256,
    ;
    assert(blend_channel(base[2] as int, p.b as int, p.a as int) < 256) by (nonlinear_arith)
        requires
            base[2] < 256,
            p.b < 256,
            p.a < 256,
    ;
    let r = [r0, r1, r2, r3];
    assert(r@ =~= blend_spec(base@, *p));
    r
}

/// One channel of the fast integer blend: `(base * (255 - a) + new * a) >> 8`.
pub open spec fn fast_channel(base: int, new: int, a: int) -> int {
    (base * (255 - a) + new * a) / 256
}

/// The fast integer blend: a transparent write changes nothing; otherwise
/// each colour channel is blended with a division by 256 and the alpha is
/// the larger of the two.
pub open spec fn blend_fast_spec(base: Seq<u8>, new: Seq<u8>) -> Seq<u8> {
    if new[3] == 0 {
        base
    } else {
        seq![
            fast_channel(base[0] as int, new[0] as int, new[3] as int) as u8,
            fast_channel(base[1] as int, new[1] as int, new[3] as int) as u8,
            fast_channel(base[2] as int, new[2] as int, new[3] as int) as u8,
            if base[3] >= new[3] { base[3] } else { new[3] },
        ]
    }
}

/// The fast integer blend of `blend_fast_spec`.
pub fn blend_pixel_fast(base: [u8; 4], new: [u8; 4]) -> (r: [u8; 4])
    ensures
        r@ == blend_fast_spec(base@, new@),
{
    if new[3] == 0 {
        return base;
    }
    let alpha = new[3] as u16;
    let inv = 255 - alpha;
    assert(base[0] * inv + new[0] * alpha <= 255 * 255 && base[1] * inv + new[1] * alpha <= 255
        * 255 && base[2] * inv + new[2] * alpha <= 255 * 255) by (nonlinear_arith)
        requires
            base[0] < 256,
            base[1] < 256,
            base[2] < 256,
            new[0] < 256,
            new[1] < 256,
            new[2] < 256,
            inv + alpha == 255,
    ;
    let c0 = ((base[0] as u16 * inv + new[0] as u16 * alpha) / 256) as u8;
    let c1 = ((base[1] as u16 * inv + new[1] as u16 * alpha) / 256) as u8;
    let c2 = ((base[2] as u16 * inv + new[2] as u16 * alpha) / 256) as u8;
    let c3 = if base[3] >= new[3] {
        base[3]
    } else {
        new[3]
    };
    let r = [c0, c1, c2, c3];
    assert(r@ =~= blend_fast_spec(base@, new@));
    r
}

/// Number of chunks of `size` grains that cover `n` grains.
pub open spec fn chunk_count(n: int, size: int) -> int {
    (n + size - 1) / size
}

/// End of chunk `i`: the first grain after it.
pub open spec fn chunk_end(n: int, size: int, i: int) -> int {
    if (i + 1) * size < n {
        (i + 1) * size
    } else {
        n
    }
}

/// The grains of chunk `i`.
pub open spec fn chunk_of(gs: Seq<Grain>, size: int, i: int) -> Seq<Grain> {
    gs.subrange(i * size, chunk_end(gs.len() as int, size, i))
}

/// Relies on rayon::slice::ParallelSlice::par_chunks and the ordered collect
/// of an indexed parallel iterator: the grains cut into chunks of
/// `chunk_size` (the last one possibly shorter), each rendered by
/// `render_chunk` on a worker thread, gathered in chunk order.
#[verifier::external_body]
fn render_chunks_parallel(grains: &Vec<Grain>, chunk_size: usize, rs: &RasterSpec) -> (r: Vec<
    Vec<PixelWrite>,
>)
    requires
        chunk_size > 0,
        grains_wf(grains@, rs.width as int, rs.height as int),
    ensures
        r.len() == chunk_count(grains.len() as int, chunk_size as int),
        forall|i: int|
            0 <= i < r.len() ==> (#[trigger] r@[i])@ == writes_spec(
                chunk_of(grains@, chunk_size as int, i),
                *rs,
            ),
{
    let chunks = rayon::slice::ParallelSlice::par_chunks(grains.as_slice(), chunk_size);
    let rendered = rayon::iter::ParallelIterator::map(chunks, |c| render_chunk(c, rs));
    rayon::iter::ParallelIterator::collect(rendered)
}

/// Relies on rayon::current_num_threads: the size of the worker pool.
#[verifier::external_body]
fn worker_threads() -> (r: usize) {
    rayon::current_num_threads()
}

/// Chunk size for `n` grains on `threads` workers: about four chunks per
/// worker, between 100 and 1000 grains each.
pub fn chunk_size_for(n: usize, threads: usize) -> (r: usize)
    ensures
        100 <= r <= 1000,
{
    let t: usize = if threads == 0 {
        1
    } else if threads > 0x1000_0000 {
        0x1000_0000
    } else {
        threads
    };
    let per = n / (t * 4);
    if per < 100 {
        100
    } else if per > 1000 {
        1000
    } else {
        per
    }
}

/// Blends one write onto the canvas, as `apply_write` says.
fn apply_one(canvas: &mut RgbaCanvas, p: &PixelWrite, width: u32, height: u32)
    requires
        rgba_width(*old(canvas)) == width,
        rgba_height(*old(canvas)) == height,
        rgba_samples(*old(canvas)).len() == width * height * 4,
    ensures
        rgba_width(*final(canvas)) == width,
        rgba_height(*final(canvas)) == height,
        rgba_samples(*final(canvas)) == apply_write(
            rgba_samples(*old(canvas)),
            width as int,
            height as int,
            *p,
        ),
        rgba_samples(*final(canvas)).len() == width * height * 4,
{
    if p.x < width && p.y < height {
        assert((p.y * width + p.x) * 4 + 4 <= width * height * 4) by (nonlinear_arith)
            requires
                p.x < width,
                p.y < height,
        ;
        let px = get_pixel(canvas, p.x, p.y);
        let blended = blend_pixel(px, p);
        put_pixel(canvas, p.x, p.y, blended);
    }
}

/// Renders a population on the CPU: the grains are rasterized chunk by
/// chunk on the worker pool, and the writes are blended onto a transparent
/// canvas in a single pass, in grain order.
pub fn render_grains_parallel(grains: &Vec<Grain>, rs: &RasterSpec) -> (r: Vec<u8>)
    requires
        grains_wf(grains@, rs.width as int, rs.height as int),
        rs.width * rs.height * 4 <= usize::MAX,
    ensures
        r@ == render_spec(grains@, *rs),
        r.len() == rs.width * rs.height * 4,
{
    let width = rs.width;
    let height = rs.height;
    let n = grains.len();
    let size = chunk_size_for(n, worker_threads());
    let chunks = render_chunks_parallel(grains, size, rs);
    let mut canvas = new_canvas(width, height);
    let ghost blank = blank_canvas(width as int, height as int);
    assert(rgba_samples(canvas) =~= blank);
    let mut c: usize = 0;
    while c < chunks.len()
        invariant
            c <= chunks@.len(),
            chunks@.len() == chunk_count(n as int, size as int),
            n == grains@.len(),
            size > 0,
            forall|i: int|
                0 <= i < chunks@.len() ==> (#[trigger] chunks@[i])@ == writes_spec(
                    chunk_of(grains@, size as int, i),
                    *rs,
                ),
            rgba_width(canvas) == width,
            rgba_height(canvas) == height,
            rgba_samples(canvas).len() == width * height * 4,
            c * size <= n || c == chunks@.len(),
            rgba_samples(canvas) == canvas_after(
                blank,
                width as int,
                height as int,
                writes_spec(grains@.subrange(0, chunk_end(n as int, size as int, c - 1)), *rs),
            ),
        decreases chunks@.len() - c,
    {
        let ghost done = writes_spec(grains@.subrange(0, chunk_end(n as int, size as int, c - 1)), *rs);
        let chunk = &chunks[c];
        let mut j: usize = 0;
        while j < chunk.len()
            invariant
                j <= chunk@.len(),
                rgba_width(canvas) == width,
                rgba_height(canvas) == height,
                rgba_samples(canvas).len() == width * height * 4,
                rgba_samples(canvas) == canvas_after(
                    blank,
                    width as int,
                    height as int,
                    done + chunk@.subrange(0, j as int),
                ),
            decreases chunk@.len() - j,
        {
            apply_one(&mut canvas, &chunk[j], width, height);
            proof {
                let next = done + chunk@.subrange(0, j + 1);
                assert(next.drop_last() =~= done + chunk@.subrange(0, j as int));
                assert(next.last() == chunk@[j as int]);
            }
            j = j + 1;
        }
        proof {
            assert(chunk@.subrange(0, chunk@.len() as int) =~= chunk@);
            let lo = chunk_end(n as int, size as int, c - 1);
            let hi = chunk_end(n as int, size as int, c as int);
            assert(c * size <= n);
            let ci = c as int;
            assert(((ci - 1) + 1) * (size as int) == ci * (size as int));
            if ci * (size as int) < n {
                assert(lo == ci * size);
            } else {
                assert(lo == n);
            }
            assert((ci + 1) * (size as int) == ci * (size as int) + size) by (nonlinear_arith);
            assert(lo <= hi);
            let upto = grains@.subrange(0, hi);
            lemma_writes_split(upto, lo, *rs);
            assert(upto.subrange(0, lo) =~= grains@.subrange(0, lo));
            assert(upto.subrange(lo, hi) =~= chunk_of(grains@, size as int, c as int));
            if c + 1 < chunks@.len() {
                assert((c + 1) * size <= n) by (nonlinear_arith)
                    requires
                        c + 1 < (n + size - 1) / (size as int),
                        size > 0,
                ;
            }
        }
        c = c + 1;
    }
    proof {
        let total = chunks@.len() as int;
        assert(chunk_end(n as int, size as int, total - 1) == n) by (nonlinear_arith)
            requires
                total == (n + size - 1) / (size as int),
                size > 0,
                chunk_end(n as int, size as int, total - 1) == (if (total - 1 + 1) * size < n {
                    (total - 1 + 1) * size
                } else {
                    n as int
                }),
        ;
        assert(grains@.subrange(0, n as int) =~= grains@);
    }
    into_raw(canvas)
}

/// Rendering no grains yields a fully transparent canvas of the requested
/// size.
pub proof fn lemma_empty_render_is_transparent(rs: RasterSpec)
    ensures
        render_spec(Seq::empty(), rs).len() == rs.width * rs.height * 4,
        forall|i: int|
            0 <= i < render_spec(Seq::empty(), rs).len() ==> #[trigger] render_spec(
                Seq::empty(),
                rs,
            )[i] == 0,
{
    assert(writes_spec(Seq::<Grain>::empty(), rs) =~= Seq::<PixelWrite>::empty());
    assert(render_spec(Seq::empty(), rs) == blank_canvas(rs.width as int, rs.height as int));
}

/// Blending two runs of writes one after the other is blending their
/// concatenation.
pub proof fn lemma_canvas_after_concat(
    canvas: Seq<u8>,
    width: int,
    height: int,
    a: Seq<PixelWrite>,
    b: Seq<PixelWrite>,
)
    ensures
        canvas_after(canvas, width, height, a + b) == canvas_after(
            canvas_after(canvas, width, height, a),
            width,
            height,
            b,
        ),
    decreases b.len(),
{
    if b.len() == 0 {
        assert(a + b =~= a);
    } else {
        lemma_canvas_after_concat(canvas, width, height, a, b.drop_last());
        assert((a + b).drop_last() =~= a + b.drop_last());
        assert((a + b).last() == b.last());
    }
}

/// Rendering is a function of the grain list alone, whatever the partition
/// of the work: rendering the first `i` grains and then the rest onto the
/// result gives the bytes of rendering the whole population.
pub proof fn lemma_render_in_parts(gs: Seq<Grain>, rs: RasterSpec, i: int)
    requires
        0 <= i <= gs.len(),
    ensures
        render_spec(gs, rs) == canvas_after(
            render_spec(gs.subrange(0, i), rs),
            rs.width as int,
            rs.height as int,
            writes_spec(gs.subrange(i, gs.len() as int), rs),
        ),
{
    lemma_writes_split(gs, i, rs);
    lemma_canvas_after_concat(
        blank_canvas(rs.width as int, rs.height as int),
        rs.width as int,
        rs.height as int,
        writes_spec(gs.subrange(0, i), rs),
        writes_spec(gs.subrange(i, gs.len() as int), rs),
    );
}

/// The centre cell of a grain's bounding box writes the grain's full alpha
/// at the pixel under the grain's centre.
pub proof fn lemma_centre_write(g: Grain, rs: RasterSpec)
    requires
        grain_wf(g, rs.width as int, rs.height as int),
    ensures
        ({
            let k = radius(g) * box_side(g) + radius(g);
            &&& 0 <= k < box_side(g) * box_side(g)
            &&& cell_write(g, rs, k) is Some
            &&& cell_write(g, rs, k)->Some_0.x == g.x / 1000
            &&& cell_write(g, rs, k)->Some_0.y == g.y / 1000
            &&& cell_write(g, rs, k)->Some_0.a >= 40
        }),
{
    let r = radius(g);
    let side = box_side(g);
    let k = r * side + r;
    assert(0 <= k < side * side && k / side == r && k % side == r) by (nonlinear_arith)
        requires
            r >= 0,
            side == 2 * r + 1,
            k == r * side + r,
    ;
    assert(is_isqrt(0, 0));
    assert(is_isqrt(0, isqrt_spec(0)));
    lemma_isqrt_unique(0, 0, isqrt_spec(0));
    assert(0int * 1_000_000 / (g.shape_factor as int) == 0);
    assert(footprint_distance(g, 0, 0) == 0);
}

/// The writes of the first `k` cells include the write of every earlier cell
/// that writes.
pub proof fn lemma_cell_write_kept(g: Grain, rs: RasterSpec, k0: int, k: nat)
    requires
        0 <= k0 < k,
        cell_write(g, rs, k0) is Some,
    ensures
        exists|j: int|
            0 <= j < cell_writes_upto(g, rs, k).len() && cell_writes_upto(g, rs, k)[j]
                == cell_write(g, rs, k0)->Some_0,
    decreases k,
{
    let prev = cell_writes_upto(g, rs, (k - 1) as nat);
    if k0 == k - 1 {
        let p = cell_write(g, rs, k0)->Some_0;
        assert(cell_writes_upto(g, rs, k) == prev.push(p));
        assert(prev.push(p)[prev.len() as int] == p);
        assert(cell_writes_upto(g, rs, k)[prev.len() as int] == p);
    } else {
        lemma_cell_write_kept(g, rs, k0, (k - 1) as nat);
        let j = choose|j: int| 0 <= j < prev.len() && prev[j] == cell_write(g, rs, k0)->Some_0;
        match cell_write(g, rs, k - 1) {
            Some(p) => {
                assert(prev.push(p)[j] == prev[j]);
            },
            None => {},
        }
        assert(cell_writes_upto(g, rs, k)[j] == cell_write(g, rs, k0)->Some_0);
    }
}

/// Blending writes that lie on the canvas keeps a canvas of the right size
/// at that size.
pub proof fn lemma_canvas_len(canvas: Seq<u8>, width: int, height: int, ws: Seq<PixelWrite>)
    requires
        canvas.len() == width * height * 4,
    ensures
        canvas_after(canvas, width, height, ws).len() == width * height * 4,
    decreases ws.len(),
{
    if ws.len() > 0 {
        lemma_canvas_len(canvas, width, height, ws.drop_last());
        let p = ws.last();
        if p.x < width && p.y < height {
            assert((p.y * width + p.x) * 4 + 4 <= width * height * 4) by (nonlinear_arith)
                requires
                    0 <= p.x < width,
                    0 <= p.y < height,
            ;
        }
    }
}

/// Once a write has been blended at a pixel, that pixel's alpha never drops
/// below the write's alpha.
pub proof fn lemma_alpha_kept(
    canvas: Seq<u8>,
    width: int,
    height: int,
    ws: Seq<PixelWrite>,
    j: int,
)
    requires
        canvas.len() == width * height * 4,
        0 <= j < ws.len(),
        ws[j].x < width,
        ws[j].y < height,
    ensures
        canvas_after(canvas, width, height, ws)[(ws[j].y * width + ws[j].x) * 4 + 3] >= ws[j].a,
    decreases ws.len(),
{
    let p = ws[j];
    let i = (p.y * width + p.x) * 4;
    let init = ws.drop_last();
    let prev = canvas_after(canvas, width, height, init);
    lemma_canvas_len(canvas, width, height, init);
    assert(i + 4 <= width * height * 4) by (nonlinear_arith)
        requires
            0 <= p.x < width,
            0 <= p.y < height,
            i == (p.y * width + p.x) * 4,
    ;
    let q = ws.last();
    if j == ws.len() - 1 {
        let next = apply_write(prev, width, height, q);
        assert(next[i + 3] == blend_spec(prev.subrange(i, i + 4), q)[3]);
    } else {
        assert(init[j] == p);
        lemma_alpha_kept(canvas, width, height, init, j);
        if q.x < width && q.y < height {
            let iq = (q.y * width + q.x) * 4;
            assert(iq + 4 <= width * height * 4) by (nonlinear_arith)
                requires
                    0 <= q.x < width,
                    0 <= q.y < height,
                    iq == (q.y * width + q.x) * 4,
            ;
            let next = apply_write(prev, width, height, q);
            if iq == i {
                assert(next[i + 3] == blend_spec(prev.subrange(i, i + 4), q)[3]);
            } else {
                assert(i + 3 < iq || iq + 4 <= i + 3) by (nonlinear_arith)
                    requires
                        iq != i,
                        iq == (q.y * width + q.x) * 4,
                        i == (p.y * width + p.x) * 4,
                ;
                assert(next[i + 3] == prev[i + 3]);
            }
        }
    }
}

/// A non-empty population leaves a visible mark: the pixel under the first
/// grain's centre ends with an alpha of at least 40.
pub proof fn lemma_render_marks_first_grain(gs: Seq<Grain>, rs: RasterSpec)
    requires
        gs.len() > 0,
        grains_wf(gs, rs.width as int, rs.height as int),
    ensures
        render_spec(gs, rs)[((gs[0].y / 1000) * rs.width + gs[0].x / 1000) * 4 + 3] >= 40,
{
    let g = gs[0];
    assert(grain_wf(g, rs.width as int, rs.height as int));
    lemma_centre_write(g, rs);
    let r = radius(g);
    let side = box_side(g);
    let k0 = r * side + r;
    lemma_cell_write_kept(g, rs, k0, (side * side) as nat);
    let gw = grain_writes(g, rs);
    let p = cell_write(g, rs, k0)->Some_0;
    let j = choose|j: int| 0 <= j < gw.len() && gw[j] == p;
    lemma_writes_split(gs, 1, rs);
    let first = gs.subrange(0, 1);
    assert(first.drop_last() =~= Seq::<Grain>::empty());
    assert(writes_spec(Seq::<Grain>::empty(), rs) =~= Seq::<PixelWrite>::empty());
    assert(writes_spec(first, rs) =~= gw);
    let ws = writes_spec(gs, rs);
    assert(ws[j] == p);
    let w = rs.width as int;
    let h = rs.height as int;
    assert(g.x / 1000 < w && g.y / 1000 < h);
    lemma_alpha_kept(blank_canvas(w, h), w, h, ws, j);
}

} // verus!
