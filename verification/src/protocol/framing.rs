//! NUL-delimited framing of Open Protocol messages on a byte stream.

use vstd::prelude::*;

verus! {

/// The byte that ends every message on the wire.
pub const FRAME_END: u8 = 0;

/// The position of the NUL that ends the first complete frame of `buf`,
/// if `buf` holds one.
pub fn frame_end(buf: &[u8]) -> (r: Option<usize>)
    ensures
        match r {
            Some(i) => i < buf@.len() && buf@[i as int] == FRAME_END && forall|j: int|
                0 <= j < i ==> buf@[j] != FRAME_END,
            None => forall|j: int| 0 <= j < buf@.len() ==> buf@[j] != FRAME_END,
        },
{
    let mut k: usize = 0;
    while k < buf.len()
        invariant
            k <= buf@.len(),
            forall|j: int| 0 <= j < k ==> buf@[j] != FRAME_END,
        decreases buf@.len() - k,
    {
        if buf[k] == FRAME_END {
            return Some(k);
        }
        k = k + 1;
    }
    None
}

/// The bytes that carry `frame` on the wire: the frame, then its NUL.
pub fn terminated(frame: &[u8]) -> (r: Vec<u8>)
    ensures
        r@ == frame@.push(FRAME_END),
{
    let mut out: Vec<u8> = Vec::new();
    let mut k: usize = 0;
    while k < frame.len()
        invariant
            k <= frame@.len(),
            out@ == frame@.take(k as int),
        decreases frame@.len() - k,
    {
        out.push(frame[k]);
        k = k + 1;
        assert(out@ =~= frame@.take(k as int));
    }
    assert(frame@.take(frame@.len() as int) =~= frame@);
    out.push(FRAME_END);
    out
}

} // verus!
