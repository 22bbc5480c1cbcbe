//! MID 0215 - IO device status reply.

use crate::protocol::field::{int_field, str_field, FieldBuilder};
use crate::protocol::text::{
    all_ascii, ascii_chars, ascii_string, decimal_bytes, lemma_decimal_bytes_ascii, push_signed,
    signed_text,
};
use crate::protocol::ResponseData;
use vstd::prelude::*;

verus! {

/// MID 0215 data: the relays and digital inputs of an IO device.
#[derive(Debug, Clone)]
pub struct IoDeviceStatus {
    /// The IO device number.
    pub device_number: u8,
    /// Relay numbers with their states.
    pub relays: Vec<(u16, bool)>,
    /// Digital input numbers with their states.
    pub digital_inputs: Vec<(u16, bool)>,
}

/// One entry of a status list: the number in three digits, then 1 when
/// active and 0 otherwise.
pub open spec fn status_entry(number: u16, active: bool) -> Seq<u8> {
    signed_text(number as int, 3) + seq![if active { 49u8 } else { 48u8 }]
}

/// The entries of a status list, one after the other.
pub open spec fn status_list(items: Seq<(u16, bool)>) -> Seq<u8>
    decreases items.len(),
{
    if items.len() == 0 {
        Seq::empty()
    } else {
        status_list(items.drop_last()) + status_entry(items.last().0, items.last().1)
    }
}

/// The status list of two lists one after the other is their status lists
/// one after the other.
pub proof fn lemma_status_list_append(x: Seq<(u16, bool)>, y: Seq<(u16, bool)>)
    ensures
        status_list(x + y) == status_list(x) + status_list(y),
    decreases y.len(),
{
    if y.len() == 0 {
        assert(x + y =~= x);
        assert(status_list(y) =~= Seq::<u8>::empty());
        assert(status_list(x) + status_list(y) =~= status_list(x));
    } else {
        lemma_status_list_append(x, y.drop_last());
        assert((x + y).drop_last() =~= x + y.drop_last());
        assert((x + y).last() == y.last());
        assert(status_list(x + y) =~= status_list(x) + status_list(y));
    }
}

/// Unused points, `n` of them, are listed as `n` entries `0000`.
pub proof fn lemma_status_list_unused(n: nat)
    ensures
        status_list(Seq::new(n, |i: int| (0u16, false))) == Seq::new(4 * n, |i: int| 48u8),
    decreases n,
{
    if n > 0 {
        lemma_status_list_unused((n - 1) as nat);
        assert(Seq::new(n, |i: int| (0u16, false)).drop_last() =~= Seq::new(
            (n - 1) as nat,
            |i: int| (0u16, false),
        ));
        assert(status_entry(0, false) =~= seq![48u8, 48u8, 48u8, 48u8]);
        assert(status_list(Seq::new(n, |i: int| (0u16, false))) =~= Seq::new(
            4 * n,
            |i: int| 48u8,
        ));
    }
}

/// The MID 0215 data section: parameter 01, the device number in two
/// digits; parameters 02 and 03, the relay and digital input lists in 32
/// characters each.
pub open spec fn io_device_status_wire(
    device_number: u8,
    relays: Seq<(u16, bool)>,
    digital_inputs: Seq<(u16, bool)>,
) -> Seq<u8> {
    int_field(Some(1), device_number as int, 2) + str_field(
        Some(2),
        ascii_chars(status_list(relays)),
        32,
    ) + str_field(Some(3), ascii_chars(status_list(digital_inputs)), 32)
}

/// The status list of `items`, as text.
fn status_text(items: &Vec<(u16, bool)>) -> (r: String)
    ensures
        r@ == ascii_chars(status_list(items@)),
{
    let mut out: Vec<u8> = Vec::new();
    let mut k: usize = 0;
    while k < items.len()
        invariant
            k <= items@.len(),
            out@ == status_list(items@.take(k as int)),
            all_ascii(out@),
        decreases items@.len() - k,
    {
        let (number, active) = items[k];
        let ghost before = out@;
        push_signed(&mut out, number as i64, 3);
        out.push(if active { 49 } else { 48 });
        proof {
            assert(items@.take(k + 1).drop_last() =~= items@.take(k as int));
            assert(items@.take(k + 1).last() == items@[k as int]);
            assert(out@ =~= before + status_entry(number, active));
            lemma_decimal_bytes_ascii(number as nat);
            assert forall|i: int| 0 <= i < out@.len() implies #[trigger] out@[i] < 128 by {
                if i >= before.len() && i < out@.len() - 1 {
                    let d = decimal_bytes(number as nat);
                    if d.len() >= 3 {
                        assert(out@[i] == d[i - before.len()]);
                    } else if i - before.len() >= 3 - d.len() {
                        assert(out@[i] == d[i - before.len() - (3 - d.len())]);
                    }
                }
            }
        }
        k = k + 1;
    }
    assert(items@.take(items@.len() as int) =~= items@);
    ascii_string(&out)
}

impl IoDeviceStatus {
    /// The status of IO device `device_number`.
    pub fn new(device_number: u8, relays: Vec<(u16, bool)>, digital_inputs: Vec<(u16, bool)>) -> (r: Self)
        ensures
            r.device_number == device_number,
            r.relays@ == relays@,
            r.digital_inputs@ == digital_inputs@,
    {
        IoDeviceStatus { device_number, relays, digital_inputs }
    }
}

impl ResponseData for IoDeviceStatus {
    open spec fn wire(&self) -> Seq<u8> {
        io_device_status_wire(self.device_number, self.relays@, self.digital_inputs@)
    }

    open spec fn encodable(&self) -> bool {
        true
    }

    fn serialize(&self) -> (r: Vec<u8>) {
        let relay_list = status_text(&self.relays);
        let digital_input_list = status_text(&self.digital_inputs);
        let r = FieldBuilder::new().add_int(Some(1), self.device_number as i32, 2).add_str(
            Some(2),
            relay_list.as_str(),
            32,
        ).add_str(Some(3), digital_input_list.as_str(), 32).build();
        assert(r@ =~= self.wire());
        r
    }
}

} // verus!
