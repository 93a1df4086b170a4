//! Per-dispatch parameters for the brush compute kernel.
//!
//! `DispatchParams` is the engine-level payload: the linear brush color in
//! fixed point, the segment endpoints (previous and current cursor), the two
//! weight anchors, and the selected tool index.  `ParamWords` is the same
//! block once every scalar has been lowered to a raw 32-bit word in the
//! shader's own encoding; `param_words_to_bytes` lays those words out in the
//! exact, tightly packed byte order the kernel ABI expects.

use vstd::prelude::*;

verus! {

/// Brush tool index understood by the kernel: plain segment drawing.
pub const TOOL_DRAW: u32 = 0;

/// Brush tool index understood by the kernel: the weight-anchor brush.
pub const TOOL_WEIGHT: u32 = 1;

/// Engine-level parameters of one compute dispatch.
///
/// Colors are linear-light fixed point in `0 ..= LINEAR_ONE` (see the color
/// module); positions are image-space subpixel coordinates.
#[derive(Clone, Copy, PartialEq, Eq, Structural, Debug)]
pub struct DispatchParams {
    /// Linear red channel.
    pub color_r: u64,
    /// Linear green channel.
    pub color_g: u64,
    /// Linear blue channel.
    pub color_b: u64,
    /// Linear alpha channel.
    pub color_a: u64,
    /// Previous-frame cursor, x (subpixels).
    pub cursor_ax: i64,
    /// Previous-frame cursor, y (subpixels).
    pub cursor_ay: i64,
    /// Current cursor, x (subpixels).
    pub cursor_bx: i64,
    /// Current cursor, y (subpixels).
    pub cursor_by: i64,
    /// First weight anchor, x (subpixels).
    pub weight_ax: i64,
    /// First weight anchor, y (subpixels).
    pub weight_ay: i64,
    /// Second weight anchor, x (subpixels).
    pub weight_bx: i64,
    /// Second weight anchor, y (subpixels).
    pub weight_by: i64,
    /// Selected tool index (`TOOL_DRAW` or `TOOL_WEIGHT`).
    pub tool: u32,
}

/// The same parameter block with every scalar lowered to the raw 32-bit word
/// that is pushed to the kernel: four color words, then the two cursor
/// positions, then the two weight anchors (x before y throughout), then the
/// tool index.
#[derive(Clone, Copy, PartialEq, Eq, Debug)]
pub struct ParamWords {
    /// Color words, red through alpha.
    pub color: [u32; 4],
    /// Previous-frame cursor (x, y).
    pub cursor_a: [u32; 2],
    /// Current cursor (x, y).
    pub cursor_b: [u32; 2],
    /// First weight anchor (x, y).
    pub weight_a: [u32; 2],
    /// Second weight anchor (x, y).
    pub weight_b: [u32; 2],
    /// Tool index word.
    pub tool: u32,
}

/// The 13 words of the block in push order.
pub open spec fn param_word_list(p: ParamWords) -> Seq<u32> {
    seq![
        p.color[0], p.color[1], p.color[2], p.color[3],
        p.cursor_a[0], p.cursor_a[1],
        p.cursor_b[0], p.cursor_b[1],
        p.weight_a[0], p.weight_a[1],
        p.weight_b[0], p.weight_b[1],
        p.tool,
    ]
}

/// Little-endian byte image of one 32-bit word.
pub open spec fn le_bytes32(w: u32) -> Seq<u8> {
    seq![
        (w & 0xff) as u8,
        ((w >> 8) & 0xff) as u8,
        ((w >> 16) & 0xff) as u8,
        ((w >> 24) & 0xff) as u8,
    ]
}

/// Byte image of the first `n` words of `ws`, concatenated in order.
pub open spec fn le_bytes_of_words(ws: Seq<u32>, n: int) -> Seq<u8>
    decreases n,
{
    if n <= 0 {
        Seq::empty()
    } else {
        le_bytes_of_words(ws, n - 1) + le_bytes32(ws[n - 1])
    }
}

/// The packed byte layout of the whole parameter block: 13 words, 52 bytes,
/// little-endian, tightly packed with no padding.
pub open spec fn param_bytes(p: ParamWords) -> Seq<u8> {
    le_bytes_of_words(param_word_list(p), 13)
}

/// Appends the little-endian bytes of `w` to `out`.
fn push_word_le(out: &mut Vec<u8>, w: u32)
    ensures
        final(out)@ == old(out)@ + le_bytes32(w),
{
    out.push((w & 0xff) as u8);
    out.push(((w >> 8) & 0xff) as u8);
    out.push(((w >> 16) & 0xff) as u8);
    out.push(((w >> 24) & 0xff) as u8);
    assert(final(out)@ =~= old(out)@ + le_bytes32(w));
}

/// Packs the parameter block into the byte image the kernel ABI expects:
/// exactly the words of `param_word_list`, each little-endian, no padding.
pub fn param_words_to_bytes(p: &ParamWords) -> (r: Vec<u8>)
    ensures
        r@ == param_bytes(*p),
        r@.len() == 52,
{
    let mut out: Vec<u8> = Vec::new();
    push_word_le(&mut out, p.color[0]);
    push_word_le(&mut out, p.color[1]);
    push_word_le(&mut out, p.color[2]);
    push_word_le(&mut out, p.color[3]);
    push_word_le(&mut out, p.cursor_a[0]);
    push_word_le(&mut out, p.cursor_a[1]);
    push_word_le(&mut out, p.cursor_b[0]);
    push_word_le(&mut out, p.cursor_b[1]);
    push_word_le(&mut out, p.weight_a[0]);
    push_word_le(&mut out, p.weight_a[1]);
    push_word_le(&mut out, p.weight_b[0]);
    push_word_le(&mut out, p.weight_b[1]);
    push_word_le(&mut out, p.tool);
    proof {
        let ws = param_word_list(*p);
        assert(out@ =~= le_bytes_of_words(ws, 13)) by {
            reveal_with_fuel(le_bytes_of_words, 14);
        }
    }
    out
}

} // verus!
