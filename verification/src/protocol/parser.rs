//! Decoding of Open Protocol frames into messages.

use crate::protocol::serializer::{frame_bytes, header_bytes};
use crate::protocol::text::{decimal_bytes, signed_text, zero_padded};
use crate::protocol::Message;
use vstd::prelude::*;

verus! {

/// Why a frame could not be read as a message.
#[derive(Debug, Clone, Copy, PartialEq, Eq)]
pub enum ProtocolError {
    /// Fewer bytes than the 20-byte header.
    TooShort,
    /// The length field is not four ASCII digits.
    InvalidLength,
    /// The MID field is not four ASCII digits.
    InvalidMid,
    /// The revision field is neither three ASCII digits nor blank.
    InvalidRevision,
    /// The length field disagrees with the size of the frame.
    LengthMismatch,
}

/// True for the ASCII digits.
pub open spec fn is_digit_byte(b: u8) -> bool {
    48 <= b <= 57
}

/// True when every byte of `s` is an ASCII digit.
pub open spec fn all_digit_bytes(s: Seq<u8>) -> bool {
    forall|i: int| 0 <= i < s.len() ==> is_digit_byte(#[trigger] s[i])
}

/// The number that a run of ASCII digits denotes.
pub open spec fn digit_bytes_value(s: Seq<u8>) -> int
    decreases s.len(),
{
    if s.len() == 0 {
        0
    } else {
        10 * digit_bytes_value(s.drop_last()) + (s.last() - 48)
    }
}

/// The value of a numeric header field, when it is all ASCII digits.
pub open spec fn header_number(s: Seq<u8>) -> Option<int> {
    if all_digit_bytes(s) {
        Some(digit_bytes_value(s))
    } else {
        None
    }
}

/// The revision a header carries: three digits up to 255, where a blank
/// field and `000` both stand for revision 1.
pub open spec fn header_revision(s: Seq<u8>) -> Option<int> {
    if s == Seq::new(3, |i: int| 32u8) {
        Some(1)
    } else {
        match header_number(s) {
            Some(v) => if v == 0 {
                Some(1)
            } else if v > 255 {
                None
            } else {
                Some(v)
            },
            None => None,
        }
    }
}

/// What `parse_message` gives for a frame.
pub open spec fn parsed_frame(raw: Seq<u8>) -> Result<(u16, u16, u8, Seq<u8>), ProtocolError> {
    if raw.len() < 20 {
        Err(ProtocolError::TooShort)
    } else {
        match header_number(raw.subrange(0, 4)) {
            None => Err(ProtocolError::InvalidLength),
            Some(length) => match header_number(raw.subrange(4, 8)) {
                None => Err(ProtocolError::InvalidMid),
                Some(mid) => match header_revision(raw.subrange(8, 11)) {
                    None => Err(ProtocolError::InvalidRevision),
                    Some(revision) => if length != raw.len() {
                        Err(ProtocolError::LengthMismatch)
                    } else {
                        Ok(
                            (
                                length as u16,
                                mid as u16,
                                revision as u8,
                                raw.subrange(20, raw.len() as int),
                            ),
                        )
                    },
                },
            },
        }
    }
}

/// Ten to the power `k`.
pub open spec fn ten_pow(k: nat) -> int
    decreases k,
{
    if k == 0 {
        1
    } else {
        10 * ten_pow((k - 1) as nat)
    }
}

proof fn lemma_ten_pow_small(k: nat)
    requires
        k <= 3,
    ensures
        ten_pow(k) <= 1000,
{
    reveal_with_fuel(ten_pow, 5);
}

/// Reads `len` ASCII digits of `raw` from `start`.
pub fn read_digits(raw: &[u8], start: usize, len: usize) -> (r: Option<u16>)
    requires
        start + len <= raw@.len(),
        len <= 4,
    ensures
        r is Some <==> header_number(raw@.subrange(start as int, start + len)) is Some,
        r matches Some(x) ==> header_number(raw@.subrange(start as int, start + len)) == Some(
            x as int,
        ),
{
    let ghost s = raw@.subrange(start as int, start + len);
    let mut acc: u16 = 0;
    let mut k: usize = 0;
    while k < len
        invariant
            k <= len <= 4,
            start + len <= raw.len(),
            s == raw@.subrange(start as int, start + len),
            all_digit_bytes(s.take(k as int)),
            acc as int == digit_bytes_value(s.take(k as int)),
            acc < ten_pow(k as nat),
        decreases len - k,
    {
        proof {
            lemma_ten_pow_small(k as nat);
        }
        let b = raw[start + k];
        assert(s[k as int] == b);
        if b < 48 || b > 57 {
            assert(!all_digit_bytes(s));
            return None;
        }
        assert(s.take(k + 1).drop_last() =~= s.take(k as int));
        assert(all_digit_bytes(s.take(k + 1))) by {
            assert forall|i: int| 0 <= i < k + 1 implies is_digit_byte(#[trigger] s.take(k + 1)[i]) by {
                if i < k {
                    assert(s.take(k + 1)[i] == s.take(k as int)[i]);
                }
            }
        }
        acc = acc * 10 + (b - 48) as u16;
        k = k + 1;
    }
    assert(s.take(len as int) =~= s);
    Some(acc)
}

/// Reads a frame (without its terminating NUL) as a message.
pub fn parse_message(raw: &[u8]) -> (r: Result<Message, ProtocolError>)
    ensures
        match parsed_frame(raw@) {
            Ok((length, mid, revision, data)) => r matches Ok(m) && m.length == length
                && m.mid == mid && m.revision == revision && m.data@ == data,
            Err(e) => r == Err::<Message, ProtocolError>(e),
        },
{
    if raw.len() < 20 {
        return Err(ProtocolError::TooShort);
    }
    let length = match read_digits(raw, 0, 4) {
        Some(v) => v,
        None => return Err(ProtocolError::InvalidLength),
    };
    let mid = match read_digits(raw, 4, 4) {
        Some(v) => v,
        None => return Err(ProtocolError::InvalidMid),
    };
    let blank = raw[8] == 32 && raw[9] == 32 && raw[10] == 32;
    assert(blank == (raw@.subrange(8, 11) == Seq::new(3, |i: int| 32u8))) by {
        if blank {
            assert(raw@.subrange(8, 11) =~= Seq::new(3, |i: int| 32u8));
        }
        if raw@.subrange(8, 11) == Seq::new(3, |i: int| 32u8) {
            assert(raw@.subrange(8, 11)[0] == 32u8);
            assert(raw@.subrange(8, 11)[1] == 32u8);
            assert(raw@.subrange(8, 11)[2] == 32u8);
        }
    }
    let revision: u8 = if blank {
        1
    } else {
        match read_digits(raw, 8, 3) {
            Some(0) => 1,
            Some(v) => if v > 255 {
                return Err(ProtocolError::InvalidRevision);
            } else {
                v as u8
            },
            None => return Err(ProtocolError::InvalidRevision),
        }
    };
    if length as usize != raw.len() {
        return Err(ProtocolError::LengthMismatch);
    }
    let mut data: Vec<u8> = Vec::new();
    let mut k: usize = 20;
    while k < raw.len()
        invariant
            20 <= k <= raw@.len(),
            data@ =~= raw@.subrange(20, k as int),
        decreases raw@.len() - k,
    {
        data.push(raw[k]);
        k = k + 1;
    }
    Ok(Message { length, mid, revision, data })
}


proof fn lemma_decimal_bytes(n: nat)
    ensures
        all_digit_bytes(decimal_bytes(n)),
        digit_bytes_value(decimal_bytes(n)) == n,
        decimal_bytes(n).len() >= 1,
        n < 10 ==> decimal_bytes(n).len() == 1,
        n < 100 ==> decimal_bytes(n).len() <= 2,
        n < 1000 ==> decimal_bytes(n).len() <= 3,
        n < 10000 ==> decimal_bytes(n).len() <= 4,
    decreases n,
{
    if n >= 10 {
        lemma_decimal_bytes(n / 10);
        let d = decimal_bytes(n);
        assert(d.drop_last() =~= decimal_bytes(n / 10));
        assert(n == 10 * (n / 10) + n % 10);
        assert(d.last() == (48 + n % 10) as u8);
        assert(digit_bytes_value(d) == 10 * digit_bytes_value(d.drop_last()) + (d.last() - 48));
        assert forall|i: int| 0 <= i < d.len() implies is_digit_byte(#[trigger] d[i]) by {
            if i < d.len() - 1 {
                assert(d[i] == decimal_bytes(n / 10)[i]);
            }
        }
    } else {
        let d = decimal_bytes(n);
        assert(d.drop_last() =~= Seq::<u8>::empty());
        assert(digit_bytes_value(d) == 10 * digit_bytes_value(d.drop_last()) + (d.last() - 48));
    }
}

proof fn lemma_leading_zeros(z: nat, s: Seq<u8>)
    requires
        all_digit_bytes(s),
    ensures
        all_digit_bytes(Seq::new(z, |i: int| 48u8) + s),
        digit_bytes_value(Seq::new(z, |i: int| 48u8) + s) == digit_bytes_value(s),
    decreases s.len(), z,
{
    let t = Seq::new(z, |i: int| 48u8) + s;
    assert forall|i: int| 0 <= i < t.len() implies is_digit_byte(#[trigger] t[i]) by {
        if i >= z {
            assert(t[i] == s[i - z]);
        }
    }
    if s.len() > 0 {
        assert(all_digit_bytes(s.drop_last())) by {
            assert forall|i: int| 0 <= i < s.drop_last().len() implies is_digit_byte(
                #[trigger] s.drop_last()[i],
            ) by {
                assert(s.drop_last()[i] == s[i]);
            }
        }
        lemma_leading_zeros(z, s.drop_last());
        assert(t.drop_last() =~= Seq::new(z, |i: int| 48u8) + s.drop_last());
    } else if z > 0 {
        assert(t.drop_last() =~= Seq::new((z - 1) as nat, |i: int| 48u8) + s);
        lemma_leading_zeros((z - 1) as nat, s);
    } else {
        assert(t =~= s);
    }
}

proof fn lemma_padded_number(n: nat, width: nat)
    requires
        decimal_bytes(n).len() <= width,
    ensures
        signed_text(n as int, width).len() == width,
        header_number(signed_text(n as int, width)) == Some(n as int),
{
    lemma_decimal_bytes(n);
    let d = decimal_bytes(n);
    if d.len() < width {
        lemma_leading_zeros((width - d.len()) as nat, d);
    }
}

/// Reading a frame back gives the header fields and data that were written:
/// for every response whose MID has at most four digits, whose revision is
/// between 1 and 255, and whose frame fits the four-digit length field,
/// `parse_message` of `serialize_response` returns that MID, revision and
/// data, with the frame's length.
pub proof fn frame_round_trip(mid: u16, revision: u8, data: Seq<u8>)
    requires
        mid <= 9999,
        1 <= revision,
        data.len() + 20 <= 9999,
    ensures
        parsed_frame(frame_bytes(mid, revision, data)) == Ok::<_, ProtocolError>(
            ((20 + data.len()) as u16, mid, revision, data),
        ),
{
    let length = (20 + data.len()) as nat;
    lemma_decimal_bytes(length);
    lemma_decimal_bytes(mid as nat);
    lemma_decimal_bytes(revision as nat);
    lemma_padded_number(length, 4);
    lemma_padded_number(mid as nat, 4);
    lemma_padded_number(revision as nat, 3);
    let f = frame_bytes(mid, revision, data);
    let a = signed_text(length as int, 4);
    let b = signed_text(mid as int, 4);
    let c = signed_text(revision as int, 3);
    assert(f.subrange(0, 4) =~= a);
    assert(f.subrange(4, 8) =~= b);
    assert(f.subrange(8, 11) =~= c);
    assert(f.subrange(20, f.len() as int) =~= data);
    assert(c[0] != 32u8) by {
        assert(all_digit_bytes(c));
    }
    assert(c != Seq::new(3, |i: int| 32u8));
}

} // verus!
