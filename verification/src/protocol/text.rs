//! Decimal text, Unicode white space and UTF-8 decoding for Open Protocol fields.

use vstd::prelude::*;
use vstd::utf8::*;

verus! {

/// True for the characters that carry the Unicode `White_Space` property,
/// which is what `char::is_whitespace` tests.
pub open spec fn is_white_space(c: char) -> bool {
    ||| ('\u{9}' <= c && c <= '\u{d}')
    ||| c == ' '
    ||| c == '\u{85}'
    ||| c == '\u{a0}'
    ||| c == '\u{1680}'
    ||| ('\u{2000}' <= c && c <= '\u{200a}')
    ||| c == '\u{2028}'
    ||| c == '\u{2029}'
    ||| c == '\u{202f}'
    ||| c == '\u{205f}'
    ||| c == '\u{3000}'
}

/// Decodes bytes as UTF-8 into a character vector, or `None` when the bytes
/// are not valid UTF-8.
pub fn utf8_chars(bytes: &[u8]) -> (r: Option<Vec<char>>)
    ensures
        r is Some <==> valid_utf8(bytes@),
        r matches Some(cs) ==> cs@ == decode_utf8(bytes@),
{
    match checked_utf8(bytes) {
        None => None,
        Some(text) => {
            let mut out: Vec<char> = Vec::new();
            for c in it: text.chars()
                invariant
                    out@ == it.seq().take(it.index() as int),
            {
                out.push(c);
            }
            Some(out)
        }
    }
}

/// `std::str::from_utf8`: succeeds exactly on valid UTF-8 and then yields
/// the characters that the bytes encode.
#[verifier::external_body]
fn checked_utf8(bytes: &[u8]) -> (r: Option<&str>)
    ensures
        r is Some <==> valid_utf8(bytes@),
        r matches Some(s) ==> s@ == decode_utf8(bytes@),
{
    std::str::from_utf8(bytes).ok()
}


/// `s` without its leading white space.
pub open spec fn trim_start(s: Seq<char>) -> Seq<char>
    decreases s.len(),
{
    if s.len() > 0 && is_white_space(s[0]) {
        trim_start(s.drop_first())
    } else {
        s
    }
}

/// `s` without its trailing white space.
pub open spec fn trim_end(s: Seq<char>) -> Seq<char>
    decreases s.len(),
{
    if s.len() > 0 && is_white_space(s.last()) {
        trim_end(s.drop_last())
    } else {
        s
    }
}

/// `s` without leading and trailing white space, as `str::trim` gives it.
pub open spec fn trim(s: Seq<char>) -> Seq<char> {
    trim_end(trim_start(s))
}

proof fn lemma_trim_start_skip(s: Seq<char>, i: int)
    requires
        0 <= i <= s.len(),
        forall|k: int| 0 <= k < i ==> is_white_space(#[trigger] s[k]),
    ensures
        trim_start(s) == trim_start(s.subrange(i, s.len() as int)),
    decreases i,
{
    if i > 0 {
        lemma_trim_start_skip(s.drop_first(), i - 1);
        assert(s.drop_first().subrange(i - 1, s.drop_first().len() as int) =~= s.subrange(
            i,
            s.len() as int,
        ));
    } else {
        assert(s.subrange(0, s.len() as int) =~= s);
    }
}

proof fn lemma_trim_end_skip(s: Seq<char>, j: int)
    requires
        0 <= j <= s.len(),
        forall|k: int| j <= k < s.len() ==> is_white_space(#[trigger] s[k]),
    ensures
        trim_end(s) == trim_end(s.subrange(0, j)),
    decreases s.len() - j,
{
    if j < s.len() {
        lemma_trim_end_skip(s.drop_last(), j);
        assert(s.drop_last().subrange(0, j) =~= s.subrange(0, j));
    } else {
        assert(s.subrange(0, j) =~= s);
    }
}

/// Removes leading and trailing white space, as `str::trim` does.
pub fn trim_chars(s: &Vec<char>) -> (r: Vec<char>)
    ensures
        r@ == trim(s@),
{
    let n = s.len();
    let mut i: usize = 0;
    while i < n && is_white_space_char(s[i])
        invariant
            i <= n,
            n == s@.len(),
            forall|k: int| 0 <= k < i ==> is_white_space(#[trigger] s@[k]),
        decreases n - i,
    {
        i = i + 1;
    }
    proof {
        lemma_trim_start_skip(s@, i as int);
    }
    let ghost rest = s@.subrange(i as int, n as int);
    assert(trim_start(rest) == rest);
    let mut j: usize = n;
    while j > i && is_white_space_char(s[j - 1])
        invariant
            i <= j <= n,
            n == s@.len(),
            forall|k: int| j <= k < n ==> is_white_space(#[trigger] s@[k]),
        decreases j,
    {
        j = j - 1;
    }
    proof {
        lemma_trim_end_skip(rest, j - i);
        assert(rest.subrange(0, j - i) =~= s@.subrange(i as int, j as int));
    }
    let mut out: Vec<char> = Vec::new();
    let mut k: usize = i;
    while k < j
        invariant
            i <= k <= j <= n,
            n == s@.len(),
            out@ =~= s@.subrange(i as int, k as int),
        decreases j - k,
    {
        out.push(s[k]);
        k = k + 1;
    }
    out
}

/// `char::is_whitespace`.
pub fn is_white_space_char(c: char) -> (r: bool)
    ensures
        r == is_white_space(c),
{
    ('\u{9}' <= c && c <= '\u{d}') || c == ' ' || c == '\u{85}' || c == '\u{a0}' || c
        == '\u{1680}' || ('\u{2000}' <= c && c <= '\u{200a}') || c == '\u{2028}' || c
        == '\u{2029}' || c == '\u{202f}' || c == '\u{205f}' || c == '\u{3000}'
}


/// True for the ASCII digits `0`..`9`.
pub open spec fn is_digit(c: char) -> bool {
    '0' <= c && c <= '9'
}

/// The value of a digit character.
pub open spec fn digit_value(c: char) -> int {
    c as int - '0' as int
}

/// True when every character of `s` is an ASCII digit.
pub open spec fn all_digits(s: Seq<char>) -> bool {
    forall|i: int| 0 <= i < s.len() ==> is_digit(#[trigger] s[i])
}

/// The number that a string of decimal digits denotes.
pub open spec fn digits_value(s: Seq<char>) -> int
    decreases s.len(),
{
    if s.len() == 0 {
        0
    } else {
        10 * digits_value(s.drop_last()) + digit_value(s.last())
    }
}

/// The digits of an unsigned decimal, once an optional leading `+` is removed.
pub open spec fn unsigned_digits(s: Seq<char>) -> Seq<char> {
    if s.len() > 0 && s[0] == '+' {
        s.drop_first()
    } else {
        s
    }
}

/// What `FromStr` for an unsigned integer type whose largest value is `max`
/// reads from `s`: an optional `+`, then one or more ASCII digits, with a
/// value no larger than `max`; anything else is refused.
pub open spec fn unsigned_value(s: Seq<char>, max: int) -> Option<int> {
    let d = unsigned_digits(s);
    if d.len() > 0 && all_digits(d) && digits_value(d) <= max {
        Some(digits_value(d))
    } else {
        None
    }
}

proof fn lemma_digits_value_nonneg(s: Seq<char>)
    requires
        all_digits(s),
    ensures
        digits_value(s) >= 0,
    decreases s.len(),
{
    if s.len() > 0 {
        assert(all_digits(s.drop_last())) by {
            assert forall|i: int| 0 <= i < s.drop_last().len() implies is_digit(
                #[trigger] s.drop_last()[i],
            ) by {
                assert(s.drop_last()[i] == s[i]);
            }
        }
        lemma_digits_value_nonneg(s.drop_last());
        assert(is_digit(s[s.len() - 1]));
    }
}

proof fn lemma_digits_value_prefix_grows(s: Seq<char>, k: int)
    requires
        all_digits(s),
        0 <= k <= s.len(),
    ensures
        digits_value(s.take(k)) <= digits_value(s),
    decreases s.len() - k,
{
    if k < s.len() {
        let t = s.drop_last();
        assert(all_digits(t)) by {
            assert forall|i: int| 0 <= i < t.len() implies is_digit(#[trigger] t[i]) by {
                assert(t[i] == s[i]);
            }
        }
        lemma_digits_value_prefix_grows(t, k);
        assert(t.take(k) =~= s.take(k));
        lemma_digits_value_nonneg(t);
        assert(is_digit(s[s.len() - 1]));
    } else {
        assert(s.take(k) =~= s);
    }
}

/// Reads an unsigned decimal no larger than `max` the way `str::parse` does
/// for unsigned integer types.
pub fn parse_unsigned(s: &Vec<char>, max: u32) -> (r: Option<u32>)
    ensures
        match unsigned_value(s@, max as int) {
            Some(v) => r matches Some(x) && x as int == v,
            None => r is None,
        },
{
    let n = s.len();
    let start: usize = if n > 0 && s[0] == '+' {
        1
    } else {
        0
    };
    let ghost d = unsigned_digits(s@);
    assert(d =~= s@.subrange(start as int, n as int));
    if start >= n {
        return None;
    }
    let mut acc: u64 = 0;
    let mut k: usize = start;
    while k < n
        invariant
            start <= k <= n,
            n == s@.len(),
            d == s@.subrange(start as int, n as int),
            d == unsigned_digits(s@),
            all_digits(d.take(k - start)),
            acc as int == digits_value(d.take(k - start)),
            acc <= max,
        decreases n - k,
    {
        let c = s[k];
        if !('0' <= c && c <= '9') {
            assert(d[k - start] == c);
            assert(!all_digits(d));
            return None;
        }
        let next: u64 = acc * 10 + (c as u64 - '0' as u64);
        assert(d.take(k + 1 - start).drop_last() =~= d.take(k - start));
        assert(d.take(k + 1 - start).last() == c);
        assert(all_digits(d.take(k + 1 - start))) by {
            assert forall|i: int| 0 <= i < d.take(k + 1 - start).len() implies is_digit(
                #[trigger] d.take(k + 1 - start)[i],
            ) by {
                if i < k - start {
                    assert(d.take(k + 1 - start)[i] == d.take(k - start)[i]);
                }
            }
        }
        assert(digits_value(d.take(k + 1 - start)) == next);
        if next > max as u64 {
            proof {
                if all_digits(d) {
                    lemma_digits_value_prefix_grows(d, k + 1 - start);
                }
            }
            return None;
        }
        acc = next;
        k = k + 1;
    }
    assert(d.take(n - start) =~= d);
    Some(acc as u32)
}

/// The ASCII digits of `n`, most significant first.
pub open spec fn decimal_bytes(n: nat) -> Seq<u8>
    decreases n,
{
    if n < 10 {
        seq![(48 + n) as u8]
    } else {
        decimal_bytes(n / 10).push((48 + n % 10) as u8)
    }
}

/// `s` with ASCII zeros in front, up to `width` bytes.
pub open spec fn zero_padded(s: Seq<u8>, width: nat) -> Seq<u8> {
    if s.len() >= width {
        s
    } else {
        Seq::new((width - s.len()) as nat, |i: int| 48u8) + s
    }
}

/// `s` with ASCII spaces behind it when its `chars` characters fall short of `width`.
pub open spec fn space_padded(s: Seq<u8>, chars: nat, width: nat) -> Seq<u8> {
    if chars >= width {
        s
    } else {
        s + Seq::new((width - chars) as nat, |i: int| 32u8)
    }
}

/// A number below `10^width` has at most `width` decimal digits.
pub proof fn lemma_decimal_bytes_fit(n: nat, width: nat)
    requires
        width >= 1,
        n < crate::protocol::parser::ten_pow(width),
    ensures
        decimal_bytes(n).len() <= width,
    decreases n,
{
    if n >= 10 {
        assert(width >= 2) by {
            if width == 1 {
                reveal_with_fuel(crate::protocol::parser::ten_pow, 2);
            }
        }
        assert(crate::protocol::parser::ten_pow(width) == 10 * crate::protocol::parser::ten_pow(
            (width - 1) as nat,
        ));
        lemma_decimal_bytes_fit(n / 10, (width - 1) as nat);
    }
}

/// A nonnegative value whose digits fit in `width` is written in exactly
/// `width` bytes: its digits, zero-padded in front.
pub proof fn lemma_signed_text_fixed_width(value: int, width: nat)
    requires
        width >= 1,
        0 <= value < crate::protocol::parser::ten_pow(width),
    ensures
        signed_text(value, width).len() == width,
        signed_text(value, width) == zero_padded(decimal_bytes(value as nat), width),
{
    lemma_decimal_bytes_fit(value as nat, width);
}

/// An integer in decimal, zero-padded to `width` as `format!("{:0width$}")`
/// writes it: a negative value keeps its `-` in front of the padding.
pub open spec fn signed_text(value: int, width: nat) -> Seq<u8> {
    if value >= 0 {
        zero_padded(decimal_bytes(value as nat), width)
    } else {
        seq![45u8] + zero_padded(
            decimal_bytes((-value) as nat),
            if width >= 1 {
                (width - 1) as nat
            } else {
                0
            },
        )
    }
}

/// The decimal digits of `n`.
pub fn decimal_digits(n: u64) -> (r: Vec<u8>)
    ensures
        r@ == decimal_bytes(n as nat),
    decreases n,
{
    if n < 10 {
        let mut v: Vec<u8> = Vec::new();
        v.push(48 + n as u8);
        assert(v@ =~= seq![(48 + n) as u8]);
        v
    } else {
        let mut v = decimal_digits(n / 10);
        v.push(48 + (n % 10) as u8);
        v
    }
}

/// Appends `fill` copies of `byte` to `out`.
pub fn push_repeated(out: &mut Vec<u8>, byte: u8, fill: usize)
    ensures
        final(out)@ == old(out)@ + Seq::new(fill as nat, |i: int| byte),
{
    let ghost start = out@;
    let mut k: usize = 0;
    while k < fill
        invariant
            k <= fill,
            out@ =~= start + Seq::new(k as nat, |i: int| byte),
        decreases fill - k,
    {
        out.push(byte);
        k = k + 1;
    }
}

/// Appends every byte of `bytes` to `out`.
pub fn push_all(out: &mut Vec<u8>, bytes: &[u8])
    ensures
        final(out)@ == old(out)@ + bytes@,
{
    let ghost start = out@;
    let mut k: usize = 0;
    while k < bytes.len()
        invariant
            k <= bytes@.len(),
            out@ =~= start + bytes@.subrange(0, k as int),
        decreases bytes@.len() - k,
    {
        out.push(bytes[k]);
        k = k + 1;
    }
    assert(bytes@.subrange(0, bytes@.len() as int) =~= bytes@);
}

/// Appends `digits` to `out`, zero-padded in front to `width` bytes.
fn push_zero_padded(out: &mut Vec<u8>, digits: &Vec<u8>, width: usize)
    ensures
        final(out)@ == old(out)@ + zero_padded(digits@, width as nat),
{
    if digits.len() < width {
        push_repeated(out, 48, width - digits.len());
    }
    push_all(out, digits.as_slice());
    proof {
        if digits@.len() < width {
            assert(old(out)@ + Seq::new((width - digits@.len()) as nat, |i: int| 48u8) + digits@
                =~= old(out)@ + zero_padded(digits@, width as nat));
        }
    }
}

/// Appends `value` in decimal, zero-padded to `width` as `format!("{:0width$}")` does.
pub fn push_signed(out: &mut Vec<u8>, value: i64, width: usize)
    requires
        value > i64::MIN,
    ensures
        final(out)@ == old(out)@ + signed_text(value as int, width as nat),
{
    if value >= 0 {
        let digits = decimal_digits(value as u64);
        push_zero_padded(out, &digits, width);
    } else {
        let ghost before = out@;
        out.push(45);
        let digits = decimal_digits((-value) as u64);
        let w: usize = if width >= 1 {
            width - 1
        } else {
            0
        };
        push_zero_padded(out, &digits, w);
        assert(out@ =~= before + signed_text(value as int, width as nat));
    }
}


/// What `std::str::from_utf8(bytes)` then `str::parse` gives for an unsigned
/// type with largest value `max`, with or without a `str::trim` in between.
pub open spec fn decimal_field_value(bytes: Seq<u8>, trimmed: bool, max: int) -> Option<int> {
    if valid_utf8(bytes) {
        let text = decode_utf8(bytes);
        unsigned_value(
            if trimmed {
                trim(text)
            } else {
                text
            },
            max,
        )
    } else {
        None
    }
}

/// Decodes `bytes` as UTF-8, trims white space when `trimmed` holds, and
/// reads an unsigned decimal no larger than `max`.
pub fn parse_decimal_field(bytes: &[u8], trimmed: bool, max: u32) -> (r: Option<u32>)
    ensures
        match decimal_field_value(bytes@, trimmed, max as int) {
            Some(v) => r matches Some(x) && x as int == v,
            None => r is None,
        },
{
    match utf8_chars(bytes) {
        None => None,
        Some(chars) => {
            if trimmed {
                let t = trim_chars(&chars);
                parse_unsigned(&t, max)
            } else {
                parse_unsigned(&chars, max)
            }
        },
    }
}


/// The decimal digits of `n` as characters.
pub open spec fn decimal_chars(n: nat) -> Seq<char> {
    decimal_bytes(n).map_values(|b: u8| b as char)
}

pub proof fn lemma_decimal_bytes_ascii(n: nat)
    ensures
        forall|i: int| 0 <= i < decimal_bytes(n).len() ==> 48 <= #[trigger] decimal_bytes(n)[i] <= 57,
    decreases n,
{
    if n >= 10 {
        lemma_decimal_bytes_ascii(n / 10);
        assert forall|i: int| 0 <= i < decimal_bytes(n).len() implies 48 <= #[trigger] decimal_bytes(n)[i] <= 57 by {
            if i < decimal_bytes(n).len() - 1 {
                assert(decimal_bytes(n)[i] == decimal_bytes(n / 10)[i]);
            }
        }
    }
}

/// True when every byte of `s` is ASCII.
pub open spec fn all_ascii(s: Seq<u8>) -> bool {
    forall|i: int| 0 <= i < s.len() ==> #[trigger] s[i] < 128
}

/// The characters that the ASCII bytes `s` stand for.
pub open spec fn ascii_chars(s: Seq<u8>) -> Seq<char> {
    s.map_values(|b: u8| b as char)
}

/// The text of ASCII `bytes`.
pub fn ascii_string(bytes: &Vec<u8>) -> (r: String)
    requires
        all_ascii(bytes@),
    ensures
        r@ == ascii_chars(bytes@),
{
    let ghost cs = ascii_chars(bytes@);
    proof {
        assert(is_ascii_chars(cs));
        is_ascii_chars_encode_utf8(cs);
        assert(encode_utf8(cs) =~= bytes@);
        encode_utf8_valid_utf8(cs);
        encode_utf8_decode_utf8(cs);
    }
    match checked_utf8(bytes.as_slice()) {
        Some(text) => text.to_owned(),
        None => {
            assert(false);
            String::new()
        },
    }
}

/// `n` written in decimal.
pub fn decimal_string(n: u64) -> (r: String)
    ensures
        r@ == decimal_chars(n as nat),
{
    let digits = decimal_digits(n);
    proof {
        lemma_decimal_bytes_ascii(n as nat);
    }
    ascii_string(&digits)
}

/// `str::trim`: the text without leading and trailing characters that have
/// the Unicode `White_Space` property.
#[verifier::external_body]
pub(crate) fn trim_str(text: &str) -> (r: &str)
    ensures
        r@ == trim(text@),
{
    text.trim()
}

/// `std::str::from_utf8`, giving the text when the bytes are valid UTF-8.
pub fn utf8_text(bytes: &[u8]) -> (r: Option<&str>)
    ensures
        r is Some <==> valid_utf8(bytes@),
        r matches Some(s) ==> s@ == decode_utf8(bytes@),
{
    checked_utf8(bytes)
}

} // verus!
