//! Fixed-point color model.
//!
//! The engine works in linear light.  A linear channel is a fixed-point
//! value in `0 ..= LINEAR_ONE`; an sRGB-encoded channel is a fixed-point
//! value in `0 ..= SRGB_ONE`.  One gamma model is used uniformly at load
//! time, at export time and for the brush color: a pure power curve with
//! exponent 2.2 = 2 + 1/5, evaluated exactly in integer arithmetic as
//!
//! `linear(s) = floor(s^2 * floor((s * SRGB_ONE^4)^(1/5)) * LINEAR_ONE / SRGB_ONE^3)`
//!
//! so that `linear(s) / LINEAR_ONE` tracks `(s / SRGB_ONE)^2.2`.  Encoding is
//! the exact monotone inverse, found by binary search; `lemma_gamma_round_trip`
//! bounds the error of an encode/decode round trip by `DECODE_STEP_BOUND`
//! out of `LINEAR_ONE`, which is below one part in a thousand.

use vstd::prelude::*;

verus! {

/// Fixed-point one for sRGB-encoded values (2^13).
pub const SRGB_ONE: u64 = 8192;

/// Fixed-point one for linear-light values (2^20).
pub const LINEAR_ONE: u64 = 1048576;

/// `SRGB_ONE` to the fourth power.
pub const SRGB_ONE_P4: u64 = SRGB_ONE * SRGB_ONE * SRGB_ONE * SRGB_ONE;

/// `SRGB_ONE` cubed.
pub const SRGB_ONE_P3: u64 = SRGB_ONE * SRGB_ONE * SRGB_ONE;

/// Fifth power.
pub open spec fn pow5(r: int) -> int {
    r * r * r * r * r
}

/// `r` is the integer fifth root of `x`.
pub open spec fn is_root5(x: int, r: int) -> bool {
    0 <= r && pow5(r) <= x < pow5(r + 1)
}

/// Binary search for the fifth root of `x` within `lo .. hi`.
pub open spec fn root5_in(x: int, lo: int, hi: int) -> int
    decreases hi - lo,
{
    if hi - lo <= 1 {
        lo
    } else {
        let mid = (lo + hi) / 2;
        if pow5(mid) <= x {
            root5_in(x, mid, hi)
        } else {
            root5_in(x, lo, mid)
        }
    }
}

/// The integer fifth root, for `0 <= x <= SRGB_ONE^5`.
pub open spec fn root5(x: int) -> int {
    root5_in(x, 0, 8193)
}

/// Fifth powers preserve order on nonnegative arguments.
pub proof fn lemma_pow5_monotone(a: int, b: int)
    by (nonlinear_arith)
    requires
        0 <= a <= b,
    ensures
        pow5(a) <= pow5(b),
{
}

/// Fifth powers preserve strict order on nonnegative arguments.
pub proof fn lemma_pow5_strict(a: int, b: int)
    by (nonlinear_arith)
    requires
        0 <= a < b,
    ensures
        pow5(a) < pow5(b),
{
}

/// The binary search finds the fifth root within a valid bracket.
proof fn lemma_root5_in_correct(x: int, lo: int, hi: int)
    requires
        0 <= lo < hi,
        pow5(lo) <= x < pow5(hi),
    ensures
        is_root5(x, root5_in(x, lo, hi)),
    decreases hi - lo,
{
    if hi - lo <= 1 {
        assert(hi == lo + 1);
    } else {
        let mid = (lo + hi) / 2;
        if pow5(mid) <= x {
            lemma_root5_in_correct(x, mid, hi);
        } else {
            lemma_root5_in_correct(x, lo, mid);
        }
    }
}

/// `root5` is correct on its domain.
pub proof fn lemma_root5_correct(x: int)
    requires
        0 <= x <= pow5(8192),
    ensures
        is_root5(x, root5(x)),
        root5(x) <= 8192,
{
    assert(pow5(8192) < pow5(8193)) by {
        lemma_pow5_strict(8192, 8193);
    }
    lemma_root5_in_correct(x, 0, 8193);
    let r = root5(x);
    if r > 8192 {
        lemma_pow5_monotone(8193, r);
        lemma_pow5_strict(8192, 8193);
    }
}

/// The fifth root is unique.
pub proof fn lemma_root5_unique(x: int, r: int)
    requires
        0 <= x <= pow5(8192),
        is_root5(x, r),
    ensures
        r == root5(x),
{
    lemma_root5_correct(x);
    let q = root5(x);
    if r < q {
        lemma_pow5_monotone(r + 1, q);
    }
    if q < r {
        lemma_pow5_monotone(q + 1, r);
    }
}

/// The fifth root is monotone.
pub proof fn lemma_root5_monotone(x: int, y: int)
    requires
        0 <= x <= y <= pow5(8192),
    ensures
        root5(x) <= root5(y),
{
    lemma_root5_correct(x);
    lemma_root5_correct(y);
    if root5(x) > root5(y) {
        lemma_pow5_monotone(root5(y) + 1, root5(x));
    }
}

/// Computes the integer fifth root by binary search.
pub fn fifth_root(x: u128) -> (r: u64)
    requires
        x <= 0x20000000000000000,  // SRGB_ONE^5 = 2^65
    ensures
        is_root5(x as int, r as int),
        r as int == root5(x as int),
        r <= 8192,
{
    proof {
        assert(pow5(8192) == 0x20000000000000000) by (nonlinear_arith);
    }
    let mut lo: u64 = 0;
    let mut hi: u64 = 8193;
    while hi - lo > 1
        invariant
            lo < hi <= 8193,
            pow5(lo as int) <= x as int,
            x < pow5(hi as int),
        decreases hi - lo,
    {
        let mid = (lo + hi) / 2;
        let m = mid as u128;
        proof {
            let mi = m as int;
            assert(mi * mi <= 67125249 && mi * mi * mi <= 549957165057
                && mi * mi * mi * mi <= 4505799053312001
                && mi * mi * mi * mi * mi == pow5(mi)
                && pow5(mi) <= 36916011643785224193) by (nonlinear_arith)
                requires
                    0 <= mi <= 8193,
            ;
        }
        let m5 = m * m * m * m * m;
        if m5 <= x {
            lo = mid;
        } else {
            hi = mid;
        }
    }
    proof {
        assert(is_root5(x as int, lo as int));
        lemma_root5_unique(x as int, lo as int);
    }
    lo
}

/// The decoding transfer curve: sRGB fixed point to linear fixed point,
/// following the power-2.2 law.
pub open spec fn srgb_to_linear_spec(s: int) -> int {
    (s * s * root5(s * (SRGB_ONE_P4 as int)) * (LINEAR_ONE as int)) / (SRGB_ONE_P3 as int)
}

/// Decodes an sRGB fixed-point channel to linear fixed point.
pub fn srgb_to_linear(s: u64) -> (l: u64)
    requires
        s <= SRGB_ONE,
    ensures
        l as int == srgb_to_linear_spec(s as int),
        l <= LINEAR_ONE,
{
    proof {
        assert((s as int) * (SRGB_ONE_P4 as int) <= pow5(8192)) by (nonlinear_arith)
            requires
                s <= 8192,
                SRGB_ONE_P4 == 8192 * 8192 * 8192 * 8192,
        ;
        assert(pow5(8192) == 0x20000000000000000) by (nonlinear_arith);
    }
    let x: u128 = (s as u128) * (SRGB_ONE_P4 as u128);
    let t = fifth_root(x);
    proof {
        let si = s as int;
        let ti = t as int;
        assert(si * si <= 67108864 && si * si * ti <= 549755813888 && si * si * ti * (
        LINEAR_ONE as int) <= (SRGB_ONE_P3 as int) * (LINEAR_ONE as int)) by (nonlinear_arith)
            requires
                0 <= si <= 8192,
                0 <= ti <= 8192,
                SRGB_ONE_P3 == 8192 * 8192 * 8192,
                LINEAR_ONE == 1048576,
        ;
    }
    let num: u128 = (s as u128) * (s as u128) * (t as u128) * (LINEAR_ONE as u128);
    let l128: u128 = num / (SRGB_ONE_P3 as u128);
    proof {
        let si = s as int;
        let ti = t as int;
        assert(l128 <= LINEAR_ONE) by {
            vstd::arithmetic::div_mod::lemma_div_is_ordered(
                si * si * ti * (LINEAR_ONE as int),
                (SRGB_ONE_P3 as int) * (LINEAR_ONE as int),
                SRGB_ONE_P3 as int,
            );
            assert((SRGB_ONE_P3 as int) * (LINEAR_ONE as int) / (SRGB_ONE_P3 as int)
                == LINEAR_ONE as int) by (nonlinear_arith)
                requires
                    SRGB_ONE_P3 > 0,
            ;
        }
    }
    l128 as u64
}

/// Quantizes a linear fixed-point channel to an 8-bit value.
pub open spec fn quant8(c: u64) -> u8
    recommends
        c <= LINEAR_ONE,
{
    ((c * 255) / (LINEAR_ONE as int)) as u8
}

/// Quantizes a linear fixed-point channel to 8 bits.
pub fn quantize_channel(c: u64) -> (r: u8)
    requires
        c <= LINEAR_ONE,
    ensures
        r == quant8(c),
{
    proof {
        vstd::arithmetic::div_mod::lemma_div_is_ordered(
            (c * 255) as int,
            (LINEAR_ONE * 255) as int,
            LINEAR_ONE as int,
        );
    }
    ((c * 255) / LINEAR_ONE) as u8
}

/// Widens an 8-bit sRGB channel to sRGB fixed point.
pub open spec fn srgb8_widen(v: u8) -> int {
    (v * (SRGB_ONE as int)) / 255
}

/// An 8-bit sRGB channel decoded to an 8-bit linear channel: the load-time
/// gamma correction applied to every byte of a source image.
pub open spec fn decode8(v: u8) -> u8 {
    quant8(srgb_to_linear_spec(srgb8_widen(v)) as u64)
}

/// Decodes one 8-bit sRGB channel to 8-bit linear.
pub fn decode_channel(v: u8) -> (r: u8)
    ensures
        r == decode8(v),
{
    let s: u64 = (v as u64) * SRGB_ONE / 255;
    proof {
        vstd::arithmetic::div_mod::lemma_div_is_ordered(
            (v as int) * (SRGB_ONE as int),
            255 * (SRGB_ONE as int),
            255,
        );
    }
    let l = srgb_to_linear(s);
    quantize_channel(l)
}

/// Decodes every byte of an sRGB pixel buffer to linear, as done once at
/// load time before the upload of the source image.
pub fn decode_pixels(src: &Vec<u8>) -> (r: Vec<u8>)
    ensures
        r@.len() == src@.len(),
        forall|i: int| 0 <= i < src@.len() ==> r@[i] == decode8(src@[i]),
{
    let mut out: Vec<u8> = Vec::new();
    let n = src.len();
    let mut i: usize = 0;
    while i < n
        invariant
            i <= n,
            n == src@.len(),
            out@.len() == i,
            forall|j: int| 0 <= j < i ==> out@[j] == decode8(src@[j]),
        decreases n - i,
    {
        out.push(decode_channel(src[i]));
        i = i + 1;
    }
    out
}

/// Upper bound on one step of the decoding curve, in linear units: below
/// one part in a thousand of full scale.
pub const DECODE_STEP_BOUND: u64 = 600;

/// The decoding curve is monotone.
pub proof fn lemma_decode_monotone(s1: int, s2: int)
    requires
        0 <= s1 <= s2 <= SRGB_ONE,
    ensures
        srgb_to_linear_spec(s1) <= srgb_to_linear_spec(s2),
{
    let p4 = SRGB_ONE_P4 as int;
    assert(s2 * p4 <= pow5(8192) && s1 * p4 <= s2 * p4) by (nonlinear_arith)
        requires
            0 <= s1 <= s2 <= 8192,
            p4 == 8192 * 8192 * 8192 * 8192,
    ;
    lemma_root5_monotone(s1 * p4, s2 * p4);
    lemma_root5_correct(s1 * p4);
    lemma_root5_correct(s2 * p4);
    let r1 = root5(s1 * p4);
    let r2 = root5(s2 * p4);
    assert(s1 * s1 * r1 * (LINEAR_ONE as int) <= s2 * s2 * r2 * (LINEAR_ONE as int))
        by (nonlinear_arith)
        requires
            0 <= s1 <= s2,
            0 <= r1 <= r2,
    ;
    vstd::arithmetic::div_mod::lemma_div_is_ordered(
        s1 * s1 * r1 * (LINEAR_ONE as int),
        s2 * s2 * r2 * (LINEAR_ONE as int),
        SRGB_ONE_P3 as int,
    );
}

/// The endpoints of the decoding curve are exact: black decodes to black
/// and full scale to full scale.
pub proof fn lemma_decode_endpoints()
    ensures
        srgb_to_linear_spec(0) == 0,
        srgb_to_linear_spec(SRGB_ONE as int) == LINEAR_ONE as int,
{
    let p4 = SRGB_ONE_P4 as int;
    let one = SRGB_ONE as int;
    assert(root5(0) == 0) by {
        assert(is_root5(0, 0)) by (nonlinear_arith);
        lemma_root5_unique(0, 0);
    }
    assert(root5(one * p4) == one) by {
        assert(is_root5(one * p4, one) && one * p4 <= pow5(8192)) by (nonlinear_arith)
            requires
                one == 8192,
                p4 == 8192 * 8192 * 8192 * 8192,
        ;
        lemma_root5_unique(one * p4, one);
    }
    assert(one * one * one * (LINEAR_ONE as int) / (SRGB_ONE_P3 as int) == LINEAR_ONE as int)
        by (nonlinear_arith)
        requires
            one == 8192,
            SRGB_ONE_P3 == 8192 * 8192 * 8192,
            LINEAR_ONE == 1048576,
    ;
}

/// Fifth powers distribute over products.
proof fn lemma_pow5_mul(a: int, b: int)
    by (nonlinear_arith)
    ensures
        pow5(a * b) == pow5(a) * pow5(b),
{
}

/// The growth of the fifth root under one curve step: multiplied through by
/// `5 s`, the root at `s + 1` exceeds the root at `s` by at most `1 + r/(5 s)`.
proof fn lemma_root5_step(s: int, r: int, r2: int)
    requires
        1 <= s <= 8191,
        is_root5(s * (SRGB_ONE_P4 as int), r),
        is_root5((s + 1) * (SRGB_ONE_P4 as int), r2),
    ensures
        5 * s * r2 <= 5 * s * r + 5 * s + r,
{
    let p4 = SRGB_ONE_P4 as int;
    // (5s + 1)^5 * s >= (5s)^5 * (s + 1), by the binomial expansion
    assert(pow5(5 * s + 1) * s >= pow5(5 * s) * (s + 1)) by (nonlinear_arith)
        requires
            1 <= s,
    ;
    // pow5(5 s r2) <= (5 s)^5 (s + 1) p4 <= (5 s + 1)^5 s p4 < (5 s + 1)^5 pow5(r + 1)
    lemma_pow5_mul(5 * s, r2);
    lemma_pow5_mul(5 * s + 1, r + 1);
    assert(pow5(5 * s) * pow5(r2) <= pow5(5 * s) * ((s + 1) * p4)) by (nonlinear_arith)
        requires
            pow5(r2) <= (s + 1) * p4,
            1 <= s,
            pow5(5 * s) >= 0,
    ;
    assert(pow5(5 * s) * ((s + 1) * p4) <= (pow5(5 * s + 1) * s) * p4) by (nonlinear_arith)
        requires
            pow5(5 * s + 1) * s >= pow5(5 * s) * (s + 1),
            p4 > 0,
    ;
    assert(pow5(5 * s + 1) > 0) by (nonlinear_arith)
        requires
            s >= 1,
    ;
    assert((pow5(5 * s + 1) * s) * p4 < pow5(5 * s + 1) * pow5(r + 1)) by (nonlinear_arith)
        requires
            s * p4 < pow5(r + 1),
            pow5(5 * s + 1) > 0,
    ;
    assert(5 * s * r2 < (5 * s + 1) * (r + 1)) by {
        assert(pow5(5 * s * r2) < pow5((5 * s + 1) * (r + 1)));
        if 5 * s * r2 >= (5 * s + 1) * (r + 1) {
            lemma_pow5_monotone((5 * s + 1) * (r + 1), 5 * s * r2);
            assert((5 * s + 1) * (r + 1) >= 0) by (nonlinear_arith)
                requires
                    s >= 1,
                    r >= 0,
            ;
        }
    }
    assert(5 * s * r2 <= 5 * s * r + 5 * s + r) by (nonlinear_arith)
        requires
            5 * s * r2 < (5 * s + 1) * (r + 1),
    ;
}

/// One step of the decoding curve moves the linear value up by less than
/// `DECODE_STEP_BOUND`.
pub proof fn lemma_decode_step(s: int)
    requires
        0 <= s < SRGB_ONE,
    ensures
        srgb_to_linear_spec(s) <= srgb_to_linear_spec(s + 1),
        srgb_to_linear_spec(s + 1) <= srgb_to_linear_spec(s) + DECODE_STEP_BOUND,
{
    lemma_decode_monotone(s, s + 1);
    let p4 = SRGB_ONE_P4 as int;
    let p3 = SRGB_ONE_P3 as int;
    let lin = LINEAR_ONE as int;
    assert(0 <= s * p4 <= (s + 1) * p4 && (s + 1) * p4 <= pow5(8192)) by (nonlinear_arith)
        requires
            0 <= s < 8192,
            p4 == 8192 * 8192 * 8192 * 8192,
    ;
    lemma_root5_correct(s * p4);
    lemma_root5_correct((s + 1) * p4);
    let r = root5(s * p4);
    let r2 = root5((s + 1) * p4);
    if s == 0 {
        // decode(1) = r2 * LINEAR_ONE / SRGB_ONE^3 with r2 <= SRGB_ONE, so it
        // is below one: the numerator is smaller than the denominator.
        assert(r2 * lin < p3) by (nonlinear_arith)
            requires
                0 <= r2 <= 8192,
                lin == 1048576,
                p3 == 8192 * 8192 * 8192,
        ;
        assert(1 * 1 * r2 * lin == r2 * lin) by (nonlinear_arith);
        assert(r2 * lin / p3 == 0) by {
            vstd::arithmetic::div_mod::lemma_basic_div(r2 * lin, p3);
        }
        assert(srgb_to_linear_spec(0) == 0) by {
            lemma_decode_endpoints();
        }
    } else {
        lemma_root5_step(s, r, r2);
        assert(r <= r2) by {
            lemma_root5_monotone(s * p4, (s + 1) * p4);
        }
        // ((s+1)^2 r2 - s^2 r) * LINEAR_ONE <= 599 * SRGB_ONE^3
        assert(((s + 1) * (s + 1) * r2 - s * s * r) * lin <= 599 * p3) by (nonlinear_arith)
            requires
                1 <= s <= 8191,
                0 <= r <= 8192,
                r <= r2 <= 8192,
                5 * s * r2 <= 5 * s * r + 5 * s + r,
                lin == 1048576,
                p3 == 8192 * 8192 * 8192,
        ;
        let a = s * s * r * lin;
        let b = (s + 1) * (s + 1) * r2 * lin;
        assert(b <= a + 599 * p3);
        vstd::arithmetic::div_mod::lemma_div_is_ordered(b, a + 599 * p3, p3);
        assert((a + 599 * p3) / p3 == a / p3 + 599) by {
            vstd::arithmetic::div_mod::lemma_hoist_over_denominator(a, 599, p3 as nat);
        }
    }
}

/// Binary search for the greatest sRGB value decoding at or below `l`.
pub open spec fn encode_in(l: int, lo: int, hi: int) -> int
    decreases hi - lo,
{
    if hi - lo <= 1 {
        lo
    } else {
        let mid = (lo + hi) / 2;
        if srgb_to_linear_spec(mid) <= l {
            encode_in(l, mid, hi)
        } else {
            encode_in(l, lo, mid)
        }
    }
}

/// The encoding transfer curve: the greatest sRGB fixed-point value whose
/// decoding does not exceed `l` — the exact monotone inverse of
/// `srgb_to_linear_spec`.
pub open spec fn linear_to_srgb_spec(l: int) -> int {
    encode_in(l, 0, 8193)
}

/// What characterizes the encoding result.
pub open spec fn is_encoding(l: int, s: int) -> bool {
    &&& 0 <= s <= SRGB_ONE
    &&& srgb_to_linear_spec(s) <= l
    &&& s == SRGB_ONE || l < srgb_to_linear_spec(s + 1)
}

/// The binary search finds the encoding within a valid bracket.
proof fn lemma_encode_in_correct(l: int, lo: int, hi: int)
    requires
        0 <= lo < hi <= 8193,
        srgb_to_linear_spec(lo) <= l,
        hi == 8193 || l < srgb_to_linear_spec(hi),
    ensures
        ({
            let s = encode_in(l, lo, hi);
            lo <= s < hi && srgb_to_linear_spec(s) <= l && (s + 1 == hi || s == SRGB_ONE || l
                < srgb_to_linear_spec(s + 1))
        }),
    decreases hi - lo,
{
    if hi - lo <= 1 {
    } else {
        let mid = (lo + hi) / 2;
        if srgb_to_linear_spec(mid) <= l {
            lemma_encode_in_correct(l, mid, hi);
        } else {
            lemma_encode_in_correct(l, lo, mid);
        }
    }
}

/// The encoding is correct on its domain.
pub proof fn lemma_encode_correct(l: int)
    requires
        0 <= l,
    ensures
        is_encoding(l, linear_to_srgb_spec(l)),
{
    lemma_decode_endpoints();
    lemma_encode_in_correct(l, 0, 8193);
    let s = linear_to_srgb_spec(l);
    if s + 1 == 8193 {
        assert(s == SRGB_ONE);
    }
}

/// Only one value satisfies the encoding characterization.
pub proof fn lemma_encode_unique(l: int, s: int)
    requires
        0 <= l,
        is_encoding(l, s),
    ensures
        s == linear_to_srgb_spec(l),
{
    lemma_encode_correct(l);
    let q = linear_to_srgb_spec(l);
    if s < q {
        lemma_decode_monotone(s + 1, q);
    }
    if q < s {
        lemma_decode_monotone(q + 1, s);
    }
}

/// Encodes a linear fixed-point channel to sRGB fixed point: the greatest
/// value that decodes at or below `l`.
pub fn linear_to_srgb(l: u64) -> (s: u64)
    requires
        l <= LINEAR_ONE,
    ensures
        s as int == linear_to_srgb_spec(l as int),
        is_encoding(l as int, s as int),
        s <= SRGB_ONE,
{
    let mut lo: u64 = 0;
    let mut hi: u64 = 8193;
    proof {
        lemma_decode_endpoints();
    }
    while hi - lo > 1
        invariant
            l <= LINEAR_ONE,
            lo < hi <= 8193,
            srgb_to_linear_spec(lo as int) <= l as int,
            hi == 8193 || (l as int) < srgb_to_linear_spec(hi as int),
        decreases hi - lo,
    {
        let mid = (lo + hi) / 2;
        let d = srgb_to_linear(mid);
        if d <= l {
            lo = mid;
        } else {
            hi = mid;
        }
    }
    proof {
        assert(is_encoding(l as int, lo as int));
        lemma_encode_unique(l as int, lo as int);
    }
    lo
}

/// Gamma round trip: encoding a linear value to sRGB and decoding it again
/// returns a value at most `DECODE_STEP_BOUND` below the original — within
/// one part in a thousand of full scale, under the one gamma model used
/// everywhere.
pub proof fn lemma_gamma_round_trip(l: int)
    requires
        0 <= l <= LINEAR_ONE,
    ensures
        ({
            let l2 = srgb_to_linear_spec(linear_to_srgb_spec(l));
            &&& l2 <= l
            &&& l - l2 < DECODE_STEP_BOUND
            &&& 1000 * (l - l2) < LINEAR_ONE
        }),
{
    lemma_encode_correct(l);
    let s = linear_to_srgb_spec(l);
    let l2 = srgb_to_linear_spec(s);
    if s == SRGB_ONE {
        lemma_decode_endpoints();
    } else {
        lemma_decode_step(s);
    }
}

/// An 8-bit linear channel encoded back to 8-bit sRGB: the export-time
/// gamma correction applied to every byte of the saved image.
pub open spec fn encode8(v: u8) -> u8 {
    ((linear_to_srgb_spec((v * (LINEAR_ONE as int)) / 255) * 255) / (SRGB_ONE as int)) as u8
}

/// Encodes one 8-bit linear channel to 8-bit sRGB.
pub fn encode_channel(v: u8) -> (r: u8)
    ensures
        r == encode8(v),
{
    let l: u64 = (v as u64) * LINEAR_ONE / 255;
    proof {
        vstd::arithmetic::div_mod::lemma_div_is_ordered(
            (v as int) * (LINEAR_ONE as int),
            255 * (LINEAR_ONE as int),
            255,
        );
    }
    let s = linear_to_srgb(l);
    proof {
        vstd::arithmetic::div_mod::lemma_div_is_ordered(
            (s as int) * 255,
            (SRGB_ONE as int) * 255,
            SRGB_ONE as int,
        );
    }
    (s * 255 / SRGB_ONE) as u8
}

/// Encodes every byte of a linear pixel buffer to sRGB, as done once at
/// export time before the readback is written to disk.
pub fn encode_pixels(src: &Vec<u8>) -> (r: Vec<u8>)
    ensures
        r@.len() == src@.len(),
        forall|i: int| 0 <= i < src@.len() ==> r@[i] == encode8(src@[i]),
{
    let mut out: Vec<u8> = Vec::new();
    let n = src.len();
    let mut i: usize = 0;
    while i < n
        invariant
            i <= n,
            n == src@.len(),
            out@.len() == i,
            forall|j: int| 0 <= j < i ==> out@[j] == encode8(src@[j]),
        decreases n - i,
    {
        out.push(encode_channel(src[i]));
        i = i + 1;
    }
    out
}

} // verus!
