//! CPU model of the brush compute kernel.
//!
//! The GPU kernel paints a capsule of radius `BRUSH_RADIUS` around a segment
//! into Working: for the Draw tool the segment between the previous and the
//! current cursor, for the Weight tool the segment between the two weight
//! anchors.  A texel is painted at most once per stroke: the Stencil records
//! which texels the stroke has already touched, and the kernel skips marked
//! texels, which makes overlapping dispatches within one stroke idempotent
//! (`lemma_dispatch_idempotent`).

use vstd::prelude::*;
use crate::color::{quant8, quantize_channel, LINEAR_ONE};
use crate::params::{DispatchParams, TOOL_WEIGHT};

verus! {

/// Subpixel units per image pixel.
pub const SUBPIXEL: i64 = 256;

/// Largest magnitude of an image-space subpixel coordinate (4096 pixels).
pub const COORD_LIMIT: i64 = 1048576;

/// Brush radius in subpixel units (one pixel).
pub const BRUSH_RADIUS: i64 = 256;

/// Whether a subpixel coordinate is within the modeled range.
pub open spec fn coord_ok(v: i64) -> bool {
    -COORD_LIMIT <= v <= COORD_LIMIT
}

/// Well-formed dispatch parameters: coordinates in range, colors in range.
pub open spec fn params_wf(p: DispatchParams) -> bool {
    &&& coord_ok(p.cursor_ax)
    &&& coord_ok(p.cursor_ay)
    &&& coord_ok(p.cursor_bx)
    &&& coord_ok(p.cursor_by)
    &&& coord_ok(p.weight_ax)
    &&& coord_ok(p.weight_ay)
    &&& coord_ok(p.weight_bx)
    &&& coord_ok(p.weight_by)
    &&& p.color_r <= LINEAR_ONE
    &&& p.color_g <= LINEAR_ONE
    &&& p.color_b <= LINEAR_ONE
    &&& p.color_a <= LINEAR_ONE
}

/// Whether the point `(px, py)` lies within distance `r` of the segment from
/// `(ax, ay)` to `(bx, by)`.  Decided exactly in integers: against the
/// nearer endpoint outside the segment's span, against the perpendicular
/// distance within it.
pub open spec fn seg_hit(ax: int, ay: int, bx: int, by: int, px: int, py: int, r: int) -> bool {
    let dx = px - ax;
    let dy = py - ay;
    let ex = bx - ax;
    let ey = by - ay;
    let num = dx * ex + dy * ey;
    let den = ex * ex + ey * ey;
    if den == 0 || num <= 0 {
        dx * dx + dy * dy <= r * r
    } else if num >= den {
        let fx = px - bx;
        let fy = py - by;
        fx * fx + fy * fy <= r * r
    } else {
        (dx * dx + dy * dy) * den - num * num <= r * r * den
    }
}

/// The segment a dispatch paints around: the cursor segment for the Draw
/// tool, the weight-anchor segment for the Weight tool.
pub open spec fn brush_segment(p: DispatchParams) -> (int, int, int, int) {
    if p.tool == TOOL_WEIGHT {
        (p.weight_ax as int, p.weight_ay as int, p.weight_bx as int, p.weight_by as int)
    } else {
        (p.cursor_ax as int, p.cursor_ay as int, p.cursor_bx as int, p.cursor_by as int)
    }
}

/// Whether the brush covers the texel at pixel `(x, y)`: its center is
/// within `BRUSH_RADIUS` of the brush segment.
pub open spec fn covered(p: DispatchParams, x: int, y: int) -> bool {
    let (ax, ay, bx, by) = brush_segment(p);
    let cx = x * SUBPIXEL + SUBPIXEL / 2;
    let cy = y * SUBPIXEL + SUBPIXEL / 2;
    seg_hit(ax, ay, bx, by, cx, cy, BRUSH_RADIUS as int)
}

/// Whether the brush covers texel index `t` of an image `w` pixels wide.
pub open spec fn texel_covered(p: DispatchParams, w: int, t: int) -> bool {
    covered(p, t % w, t / w)
}

/// The byte the brush writes at channel `k` (0 = r .. 3 = a).
pub open spec fn color_byte(p: DispatchParams, k: int) -> u8 {
    if k == 0 {
        quant8(p.color_r)
    } else if k == 1 {
        quant8(p.color_g)
    } else if k == 2 {
        quant8(p.color_b)
    } else {
        quant8(p.color_a)
    }
}

/// Working after one dispatch: each channel byte of an unmarked, covered
/// texel becomes the brush color; every other byte is unchanged.
pub open spec fn kernel_working(
    working: Seq<u8>,
    stencil: Seq<u8>,
    p: DispatchParams,
    w: int,
) -> Seq<u8> {
    Seq::new(
        working.len(),
        |i: int|
            {
                let t = i / 4;
                if t < stencil.len() && stencil[t] == 0 && texel_covered(p, w, t) {
                    color_byte(p, i % 4)
                } else {
                    working[i]
                }
            },
    )
}

/// Stencil after one dispatch: unmarked, covered texels become marked;
/// every other texel is unchanged.
pub open spec fn kernel_stencil(stencil: Seq<u8>, p: DispatchParams, w: int) -> Seq<u8> {
    Seq::new(
        stencil.len(),
        |t: int|
            if stencil[t] == 0 && texel_covered(p, w, t) {
                1u8
            } else {
                stencil[t]
            },
    )
}

/// Dispatching the kernel twice with identical parameters changes nothing
/// the second time: the first dispatch marks every texel it paints, so the
/// repeated dispatch finds no unmarked covered texel.
pub proof fn lemma_dispatch_idempotent(
    working: Seq<u8>,
    stencil: Seq<u8>,
    p: DispatchParams,
    w: int,
)
    ensures
        kernel_working(
            kernel_working(working, stencil, p, w),
            kernel_stencil(stencil, p, w),
            p,
            w,
        ) == kernel_working(working, stencil, p, w),
        kernel_stencil(kernel_stencil(stencil, p, w), p, w) == kernel_stencil(stencil, p, w),
{
    let w1 = kernel_working(working, stencil, p, w);
    let s1 = kernel_stencil(stencil, p, w);
    assert forall|t: int| 0 <= t < s1.len() implies kernel_stencil(s1, p, w)[t] == s1[t] by {
        if stencil[t] == 0 && texel_covered(p, w, t) {
            assert(s1[t] == 1u8);
        }
    }
    assert(kernel_stencil(s1, p, w) =~= s1);
    assert forall|i: int| 0 <= i < w1.len() implies kernel_working(w1, s1, p, w)[i] == w1[i] by {
        let t = i / 4;
        if 0 <= t < s1.len() && s1[t] == 0 && texel_covered(p, w, t) {
            assert(stencil[t] == 0);
            assert(s1[t] == 1u8);
        }
    }
    assert(kernel_working(w1, s1, p, w) =~= w1);
}

/// Bound on a product of two bounded factors.
proof fn lemma_mul_bound(a: int, b: int, m: int)
    by (nonlinear_arith)
    requires
        -m <= a <= m,
        -m <= b <= m,
        0 <= m,
    ensures
        -(m * m) <= a * b <= m * m,
{
}

/// Decides `covered(p, x, y)` for a texel of the image.
pub fn covered_at(p: &DispatchParams, x: usize, y: usize) -> (r: bool)
    requires
        params_wf(*p),
        x < 4096,
        y < 4096,
    ensures
        r == covered(*p, x as int, y as int),
{
    let (ax64, ay64, bx64, by64): (i64, i64, i64, i64) = if p.tool == TOOL_WEIGHT {
        (p.weight_ax, p.weight_ay, p.weight_bx, p.weight_by)
    } else {
        (p.cursor_ax, p.cursor_ay, p.cursor_bx, p.cursor_by)
    };
    let ax = ax64 as i128;
    let ay = ay64 as i128;
    let bx = bx64 as i128;
    let by = by64 as i128;
    let cx = (x as i128) * (SUBPIXEL as i128) + (SUBPIXEL as i128) / 2;
    let cy = (y as i128) * (SUBPIXEL as i128) + (SUBPIXEL as i128) / 2;
    let r128 = BRUSH_RADIUS as i128;
    proof {
        let m: int = 0x300000;
        lemma_mul_bound(cx - ax, bx - ax, m);
        lemma_mul_bound(cy - ay, by - ay, m);
        lemma_mul_bound(bx - ax, bx - ax, m);
        lemma_mul_bound(by - ay, by - ay, m);
        lemma_mul_bound(cx - ax, cx - ax, m);
        lemma_mul_bound(cy - ay, cy - ay, m);
        lemma_mul_bound(cx - bx, cx - bx, m);
        lemma_mul_bound(cy - by, cy - by, m);
    }
    let dx = cx - ax;
    let dy = cy - ay;
    let ex = bx - ax;
    let ey = by - ay;
    let num = dx * ex + dy * ey;
    let den = ex * ex + ey * ey;
    let r2 = r128 * r128;
    if den == 0 || num <= 0 {
        dx * dx + dy * dy <= r2
    } else if num >= den {
        let fx = cx - bx;
        let fy = cy - by;
        fx * fx + fy * fy <= r2
    } else {
        let dist2 = dx * dx + dy * dy;
        proof {
            let mm: int = 0x240000000000;
            lemma_mul_bound(dist2 as int, den as int, mm);
            lemma_mul_bound(num as int, num as int, mm);
            lemma_mul_bound(r2 as int, den as int, mm);
        }
        dist2 * den - num * num <= r2 * den
    }
}

/// Runs the model kernel over the whole image: paints every unmarked texel
/// whose center lies within the brush capsule and marks it in the stencil.
pub fn dispatch_kernel(
    working: &mut Vec<u8>,
    stencil: &mut Vec<u8>,
    p: &DispatchParams,
    width: usize,
    height: usize,
)
    requires
        params_wf(*p),
        1 <= width <= 4096,
        1 <= height <= 4096,
        old(working)@.len() == width * height * 4,
        old(stencil)@.len() == width * height,
    ensures
        final(working)@ == kernel_working(old(working)@, old(stencil)@, *p, width as int),
        final(stencil)@ == kernel_stencil(old(stencil)@, *p, width as int),
{
    let ghost w0 = old(working)@;
    let ghost s0 = old(stencil)@;
    let ghost wi = width as int;
    proof {
        assert(width * height <= 0x1000000) by (nonlinear_arith)
            requires
                width <= 4096,
                height <= 4096,
        ;
    }
    let n = width * height;
    let mut t: usize = 0;
    while t < n
        invariant
            params_wf(*p),
            1 <= width <= 4096,
            1 <= height <= 4096,
            n == width * height,
            n <= 0x1000000,
            t <= n,
            w0.len() == width * height * 4,
            s0.len() == width * height,
            wi == width as int,
            working@.len() == w0.len(),
            stencil@.len() == s0.len(),
            forall|j: int|
                0 <= j < t ==> stencil@[j] == kernel_stencil(s0, *p, wi)[j],
            forall|j: int| t <= j < s0.len() ==> stencil@[j] == s0[j],
            forall|i: int|
                0 <= i < w0.len() && i / 4 < t ==> working@[i] == kernel_working(
                    w0,
                    s0,
                    *p,
                    wi,
                )[i],
            forall|i: int| 0 <= i < w0.len() && i / 4 >= t ==> working@[i] == w0[i],
        decreases n - t,
    {
        let x = t % width;
        let y = t / width;
        proof {
            assert(y < height) by {
                vstd::arithmetic::div_mod::lemma_multiply_divide_lt(t as int, wi, height as int);
            }
        }
        let marked = stencil[t];
        if marked == 0 && covered_at(p, x, y) {
            proof {
                assert(t * 4 + 3 < w0.len() && t * 4 + 3 < 0x4000000) by (nonlinear_arith)
                    requires
                        t < n,
                        n <= 0x1000000,
                        n == width * height,
                        w0.len() == width * height * 4,
                ;
            }
            let b0 = quantize_channel(p.color_r);
            let b1 = quantize_channel(p.color_g);
            let b2 = quantize_channel(p.color_b);
            let b3 = quantize_channel(p.color_a);
            working.set(t * 4, b0);
            working.set(t * 4 + 1, b1);
            working.set(t * 4 + 2, b2);
            working.set(t * 4 + 3, b3);
            stencil.set(t, 1);
        }
        proof {
            let tt = t as int;
            assert(stencil@[tt] == kernel_stencil(s0, *p, wi)[tt]);
            assert forall|i: int| 0 <= i < w0.len() && i / 4 == tt implies working@[i]
                == kernel_working(w0, s0, *p, wi)[i] by {
                assert(tt * 4 <= i <= tt * 4 + 3) by (nonlinear_arith)
                    requires
                        i / 4 == tt,
                        0 <= i,
                ;
                if s0[tt] == 0 && texel_covered(*p, wi, tt) {
                    assert(i % 4 == i - tt * 4) by (nonlinear_arith)
                        requires
                            i / 4 == tt,
                            0 <= i,
                    ;
                }
            }
        }
        t = t + 1;
    }
    proof {
        assert(working@ =~= kernel_working(w0, s0, *p, wi));
        assert(stencil@ =~= kernel_stencil(s0, *p, wi));
    }
}

} // verus!
