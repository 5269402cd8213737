//! Verified core of a compute-shader rasterizer.
//!
//! The crate holds the parts of the renderer that are plain data and
//! decisions: the orbit camera's parameter model over IEEE-754 binary32 bit
//! patterns, the byte layouts of the GPU-resident uniforms, dispatch and
//! buffer sizing, and the resource-lifecycle protocol that keeps every
//! binding set consistent with the buffer it references across resizes. The
//! caller owns the GPU device, the window and the floating-point arithmetic;
//! it feeds results back in as bit patterns and carries out the command
//! sequences this crate computes.
#![allow(unused_imports)]
pub mod binary32;
pub mod camera;
pub mod pacing;
pub mod state;

use vstd::prelude::*;

verus! {

/// The four bytes of a 32-bit word, least significant first: the layout in
/// which every uniform and vertex word is handed to the GPU.
pub open spec fn le_word(w: u32) -> Seq<u8> {
    seq![
        (w & 0xFF) as u8,
        ((w >> 8) & 0xFF) as u8,
        ((w >> 16) & 0xFF) as u8,
        ((w >> 24) & 0xFF) as u8,
    ]
}

/// The little-endian bytes of a sequence of 32-bit words, in order.
pub open spec fn le_words(ws: Seq<u32>) -> Seq<u8>
    decreases ws.len(),
{
    if ws.len() == 0 {
        Seq::empty()
    } else {
        le_word(ws[0]) + le_words(ws.skip(1))
    }
}

/// Each word contributes exactly four bytes.
pub proof fn lemma_le_words_len(ws: Seq<u32>)
    ensures
        le_words(ws).len() == 4 * ws.len(),
    decreases ws.len(),
{
    if ws.len() > 0 {
        lemma_le_words_len(ws.skip(1));
    }
}

/// Appending one word appends exactly its four bytes.
pub proof fn lemma_le_words_push(ws: Seq<u32>, w: u32)
    ensures
        le_words(ws.push(w)) == le_words(ws) + le_word(w),
    decreases ws.len(),
{
    let p = ws.push(w);
    if ws.len() == 0 {
        assert(p[0] == w);
        assert(p.skip(1) =~= Seq::<u32>::empty());
        assert(le_words(p) == le_word(w) + le_words(p.skip(1)));
        assert(le_words(p.skip(1)) == Seq::<u8>::empty());
        assert(le_words(ws) == Seq::<u8>::empty());
        assert(le_words(p) =~= le_words(ws) + le_word(w));
    } else {
        assert(p[0] == ws[0]);
        assert(p.skip(1) =~= ws.skip(1).push(w));
        lemma_le_words_push(ws.skip(1), w);
        assert(le_words(p) == le_word(ws[0]) + le_words(p.skip(1)));
        assert(le_words(ws) == le_word(ws[0]) + le_words(ws.skip(1)));
        assert(le_words(p) =~= le_words(ws) + le_word(w));
    }
}

/// Append the four little-endian bytes of `w` to `out`.
pub fn push_le_word(out: &mut Vec<u8>, w: u32)
    ensures
        final(out)@ == old(out)@ + le_word(w),
{
    proof {
        assert(w & 0xFF < 256) by (bit_vector);
        assert((w >> 8) & 0xFF < 256) by (bit_vector);
        assert((w >> 16) & 0xFF < 256) by (bit_vector);
        assert((w >> 24) & 0xFF < 256) by (bit_vector);
    }
    out.push((w & 0xFF) as u8);
    out.push(((w >> 8) & 0xFF) as u8);
    out.push(((w >> 16) & 0xFF) as u8);
    out.push(((w >> 24) & 0xFF) as u8);
    proof {
        assert(out@ =~= old(out)@ + le_word(w));
    }
}

} // verus!
