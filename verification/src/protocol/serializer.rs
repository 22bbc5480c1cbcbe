//! Encoding of responses into Open Protocol frames.

use crate::protocol::text::{push_all, push_repeated, push_signed, signed_text};
use crate::protocol::Response;
use vstd::prelude::*;

verus! {

/// Length of the fixed header that precedes every data section.
pub const HEADER_LEN: usize = 20;

/// The header of a frame: four-digit length, four-digit MID, three-digit
/// revision, then the nine optional header bytes left blank.
pub open spec fn header_bytes(length: int, mid: int, revision: int) -> Seq<u8> {
    signed_text(length, 4) + signed_text(mid, 4) + signed_text(revision, 3) + Seq::new(
        9,
        |i: int| 32u8,
    )
}

/// The frame for a response: the header, whose length counts the header
/// and the data, then the data section.
pub open spec fn frame_bytes(mid: u16, revision: u8, data: Seq<u8>) -> Seq<u8> {
    header_bytes(20 + data.len() as int, mid as int, revision as int) + data
}

/// Encodes a response as a frame (without the NUL that ends it on the wire).
pub fn serialize_response(response: &Response) -> (r: Vec<u8>)
    requires
        response.data@.len() + 20 <= i64::MAX,
    ensures
        r@ == frame_bytes(response.mid, response.revision, response.data@),
{
    let mut out: Vec<u8> = Vec::new();
    let total: i64 = HEADER_LEN as i64 + response.data.len() as i64;
    push_signed(&mut out, total, 4);
    push_signed(&mut out, response.mid as i64, 4);
    push_signed(&mut out, response.revision as i64, 3);
    push_repeated(&mut out, 32, 9);
    push_all(&mut out, response.data.as_slice());
    assert(out@ =~= frame_bytes(response.mid, response.revision, response.data@));
    out
}

} // verus!
