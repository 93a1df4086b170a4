//! Screen/image coordinate mapping.
//!
//! Positions are integer subpixel coordinates.  A pointer position inside
//! the display viewport rectangle is mapped into the visible sub-rectangle
//! of the image (the scene rectangle, owned by the pan/zoom state of the UI
//! layer) by `image-space = (pointer - viewport.origin) / viewport.size *
//! scene.size + scene.origin`, evaluated per axis with flooring division.
//! `lemma_coordinate_inversion` bounds the error of mapping a position into
//! image space and back.

use vstd::prelude::*;

verus! {

/// Largest magnitude of a screen-space subpixel coordinate.
pub const SCREEN_LIMIT: i64 = 2097152;

/// An axis-aligned rectangle in subpixel coordinates.
#[derive(Clone, Copy, PartialEq, Eq, Structural, Debug)]
pub struct RectI {
    /// Left edge.
    pub x: i64,
    /// Top edge.
    pub y: i64,
    /// Width; positive.
    pub w: i64,
    /// Height; positive.
    pub h: i64,
}

impl RectI {
    /// A rectangle with in-range edges and positive, in-range sizes.
    pub open spec fn wf(self) -> bool {
        &&& -SCREEN_LIMIT <= self.x <= SCREEN_LIMIT
        &&& -SCREEN_LIMIT <= self.y <= SCREEN_LIMIT
        &&& 0 < self.w <= SCREEN_LIMIT
        &&& 0 < self.h <= SCREEN_LIMIT
    }

    /// Whether the point lies inside the rectangle.
    pub open spec fn contains_spec(self, px: int, py: int) -> bool {
        self.x <= px < self.x + self.w && self.y <= py < self.y + self.h
    }

    /// Whether the point lies inside the rectangle.
    pub fn contains(&self, px: i64, py: i64) -> (r: bool)
        requires
            self.wf(),
            -SCREEN_LIMIT <= px <= SCREEN_LIMIT,
            -SCREEN_LIMIT <= py <= SCREEN_LIMIT,
        ensures
            r == self.contains_spec(px as int, py as int),
    {
        self.x <= px && px < self.x + self.w && self.y <= py && py < self.y + self.h
    }
}

/// A bracketing characterizes the flooring quotient.
proof fn lemma_div_bracket_unique(a: int, b: int, q: int)
    requires
        b > 0,
        q * b <= a < (q + 1) * b,
    ensures
        q == a / b,
{
    let d = a / b;
    vstd::arithmetic::div_mod::lemma_fundamental_div_mod(a, b);
    vstd::arithmetic::div_mod::lemma_mod_bound(a, b);
    assert(d * b <= a < (d + 1) * b) by (nonlinear_arith)
        requires
            b > 0,
            a == b * d + a % b,
            0 <= a % b < b,
    ;
    if q < d {
        assert((q + 1) * b <= d * b) by (nonlinear_arith)
            requires
                q + 1 <= d,
                b > 0,
        ;
    }
    if d < q {
        assert((d + 1) * b <= q * b) by (nonlinear_arith)
            requires
                d + 1 <= q,
                b > 0,
        ;
    }
}

/// Flooring division of a bounded signed value by a positive divisor.
pub fn div_floor(a: i64, b: i64) -> (r: i64)
    requires
        0 < b,
        -0x4000000000000000 < a < 0x4000000000000000,
    ensures
        r as int == a as int / b as int,
        (r as int) * (b as int) <= (a as int) < (r as int + 1) * (b as int),
{
    if a >= 0 {
        let q = (a as u64) / (b as u64);
        proof {
            let ai = a as int;
            let bi = b as int;
            let qi = q as int;
            vstd::arithmetic::div_mod::lemma_fundamental_div_mod(ai, bi);
            vstd::arithmetic::div_mod::lemma_mod_bound(ai, bi);
            assert(qi * bi <= ai < (qi + 1) * bi) by (nonlinear_arith)
                requires
                    bi > 0,
                    ai == bi * qi + ai % bi,
                    0 <= ai % bi < bi,
            ;
            assert(qi <= ai) by (nonlinear_arith)
                requires
                    bi >= 1,
                    ai >= 0,
                    qi >= 0,
                    qi * bi <= ai,
            ;
            lemma_div_bracket_unique(ai, bi, qi);
        }
        q as i64
    } else {
        let n = (-a) as u64;
        let q = (n + (b as u64) - 1) / (b as u64);
        proof {
            let ai = a as int;
            let ni = n as int;
            let bi = b as int;
            let qi = q as int;
            vstd::arithmetic::div_mod::lemma_fundamental_div_mod(ni + bi - 1, bi);
            vstd::arithmetic::div_mod::lemma_mod_bound(ni + bi - 1, bi);
            assert(qi * bi >= ni && (qi - 1) * bi < ni) by (nonlinear_arith)
                requires
                    bi > 0,
                    ni >= 1,
                    ni + bi - 1 == bi * qi + ((ni + bi - 1) % bi),
                    0 <= (ni + bi - 1) % bi < bi,
            ;
            assert(qi <= ni) by (nonlinear_arith)
                requires
                    bi >= 1,
                    ni >= 1,
                    (qi - 1) * bi < ni,
            ;
            assert((-qi) * bi <= ai < (-qi + 1) * bi) by (nonlinear_arith)
                requires
                    qi * bi >= ni,
                    (qi - 1) * bi < ni,
                    ai == -ni,
            ;
            lemma_div_bracket_unique(ai, bi, -qi);
        }
        -(q as i64)
    }
}

/// One axis of the viewport-to-scene mapping: the offset of `p` into the
/// viewport, rescaled to the scene's size, offset by the scene's origin.
pub open spec fn to_image_axis(p: int, vmin: int, vsize: int, zmin: int, zsize: int) -> int {
    (p - vmin) * zsize / vsize + zmin
}

/// One axis of the inverse mapping, back to screen space.
pub open spec fn to_screen_axis(q: int, vmin: int, vsize: int, zmin: int, zsize: int) -> int {
    (q - zmin) * vsize / zsize + vmin
}

/// Maps a pointer position into image space, given the display viewport
/// rectangle and the visible scene rectangle.
pub fn to_image(px: i64, py: i64, view: &RectI, scene: &RectI) -> (r: (i64, i64))
    requires
        view.wf(),
        scene.wf(),
        -SCREEN_LIMIT <= px <= SCREEN_LIMIT,
        -SCREEN_LIMIT <= py <= SCREEN_LIMIT,
    ensures
        r.0 as int == to_image_axis(px as int, view.x as int, view.w as int, scene.x as int, scene.w as int),
        r.1 as int == to_image_axis(py as int, view.y as int, view.h as int, scene.y as int, scene.h as int),
{
    proof {
        assert((px - view.x) * (scene.w as int) < 0x4000000000000000 && (px - view.x) * (
        scene.w as int) > -0x4000000000000000) by (nonlinear_arith)
            requires
                -2 * SCREEN_LIMIT <= px - view.x <= 2 * SCREEN_LIMIT,
                0 < scene.w <= SCREEN_LIMIT,
                SCREEN_LIMIT == 2097152,
        ;
        assert((py - view.y) * (scene.h as int) < 0x4000000000000000 && (py - view.y) * (
        scene.h as int) > -0x4000000000000000) by (nonlinear_arith)
            requires
                -2 * SCREEN_LIMIT <= py - view.y <= 2 * SCREEN_LIMIT,
                0 < scene.h <= SCREEN_LIMIT,
                SCREEN_LIMIT == 2097152,
        ;
    }
    let qx = div_floor((px - view.x) * scene.w, view.w);
    let qy = div_floor((py - view.y) * scene.h, view.h);
    proof {
        assert(-0x4000000000000000 <= qx <= 0x4000000000000000) by (nonlinear_arith)
            requires
                -0x4000000000000000 < (px - view.x) * (scene.w as int) < 0x4000000000000000,
                view.w >= 1,
                (qx as int) * (view.w as int) <= (px - view.x) * (scene.w as int) < (qx as int + 1)
                    * (view.w as int),
        ;
        assert(-0x4000000000000000 <= qy <= 0x4000000000000000) by (nonlinear_arith)
            requires
                -0x4000000000000000 < (py - view.y) * (scene.h as int) < 0x4000000000000000,
                view.h >= 1,
                (qy as int) * (view.h as int) <= (py - view.y) * (scene.h as int) < (qy as int + 1)
                    * (view.h as int),
        ;
    }
    (qx + scene.x, qy + scene.y)
}

/// Round trip of the coordinate mapping: sending a pointer position into
/// image space and back returns a position no greater than the original and
/// less than one image subpixel's worth of screen subpixels below it.
pub proof fn lemma_coordinate_inversion(p: int, vmin: int, vsize: int, zmin: int, zsize: int)
    requires
        vsize > 0,
        zsize > 0,
    ensures
        ({
            let q = to_image_axis(p, vmin, vsize, zmin, zsize);
            let p2 = to_screen_axis(q, vmin, vsize, zmin, zsize);
            0 <= p - p2 && (p - p2) * zsize < vsize + zsize
        }),
{
    let n = p - vmin;
    let m = n * zsize / vsize;
    let n2 = m * vsize / zsize;
    vstd::arithmetic::div_mod::lemma_fundamental_div_mod(n * zsize, vsize);
    vstd::arithmetic::div_mod::lemma_mod_bound(n * zsize, vsize);
    assert(m * vsize <= n * zsize < (m + 1) * vsize) by (nonlinear_arith)
        requires
            vsize > 0,
            n * zsize == vsize * m + (n * zsize) % vsize,
            0 <= (n * zsize) % vsize < vsize,
    ;
    vstd::arithmetic::div_mod::lemma_fundamental_div_mod(m * vsize, zsize);
    vstd::arithmetic::div_mod::lemma_mod_bound(m * vsize, zsize);
    assert(n2 * zsize <= m * vsize < (n2 + 1) * zsize) by (nonlinear_arith)
        requires
            zsize > 0,
            m * vsize == zsize * n2 + (m * vsize) % zsize,
            0 <= (m * vsize) % zsize < zsize,
    ;
    assert(n2 <= n) by (nonlinear_arith)
        requires
            zsize > 0,
            n2 * zsize <= m * vsize,
            m * vsize <= n * zsize,
    ;
    assert((n - n2) * zsize < vsize + zsize) by (nonlinear_arith)
        requires
            n * zsize < (m + 1) * vsize,
            m * vsize < (n2 + 1) * zsize,
    ;
    assert(to_image_axis(p, vmin, vsize, zmin, zsize) == m + zmin);
    assert(to_screen_axis(m + zmin, vmin, vsize, zmin, zsize) == n2 + vmin);
}

} // verus!
