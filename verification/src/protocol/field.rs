//! Builder for the parameter fields of an Open Protocol data section.

use crate::protocol::text::{decimal_bytes, push_all, push_repeated, push_signed, signed_text, space_padded, zero_padded};
use vstd::prelude::*;
use vstd::string::*;
use vstd::utf8::*;

verus! {

/// The two-digit parameter number that precedes a field, if any.
pub open spec fn param_prefix(param: Option<u8>) -> Seq<u8> {
    match param {
        Some(p) => zero_padded(decimal_bytes(p as nat), 2),
        None => Seq::empty(),
    }
}

/// A numeric field: the parameter number, then the value zero-padded to `width`.
pub open spec fn int_field(param: Option<u8>, value: int, width: nat) -> Seq<u8> {
    param_prefix(param) + signed_text(value, width)
}

/// A text field: the parameter number, then the UTF-8 text left-aligned and
/// space-padded to `width` characters.
pub open spec fn str_field(param: Option<u8>, text: Seq<char>, width: nat) -> Seq<u8> {
    param_prefix(param) + space_padded(encode_utf8(text), text.len(), width)
}

/// Accumulates the fields of a message's data section.
pub struct FieldBuilder {
    data: Vec<u8>,
}

impl View for FieldBuilder {
    type V = Seq<u8>;

    closed spec fn view(&self) -> Seq<u8> {
        self.data@
    }
}

impl FieldBuilder {
    /// An empty data section.
    pub fn new() -> (r: Self)
        ensures
            r@ == Seq::<u8>::empty(),
    {
        FieldBuilder { data: Vec::new() }
    }

    fn push_param(&mut self, param: Option<u8>)
        ensures
            final(self)@ == old(self)@ + param_prefix(param),
    {
        match param {
            Some(p) => push_signed(&mut self.data, p as i64, 2),
            None => {
                assert(self.data@ =~= self.data@ + param_prefix(param));
            },
        }
    }

    /// Appends a numeric field.
    pub fn add_int(self, param: Option<u8>, value: i32, width: usize) -> (r: Self)
        ensures
            r@ == self@ + int_field(param, value as int, width as nat),
    {
        let mut b = self;
        b.push_param(param);
        push_signed(&mut b.data, value as i64, width);
        assert(b@ =~= self@ + int_field(param, value as int, width as nat));
        b
    }

    /// Appends a text field.
    pub fn add_str(self, param: Option<u8>, value: &str, width: usize) -> (r: Self)
        ensures
            r@ == self@ + str_field(param, value@, width as nat),
    {
        let mut b = self;
        b.push_param(param);
        let chars = value.unicode_len();
        push_all(&mut b.data, value.as_bytes());
        if chars < width {
            push_repeated(&mut b.data, 32, width - chars);
        }
        assert(b@ =~= self@ + str_field(param, value@, width as nat));
        b
    }

    /// The finished data section.
    pub fn build(self) -> (r: Vec<u8>)
        ensures
            r@ == self@,
    {
        self.data
    }
}

} // verus!
