//! MID 0101 - Multi-spindle result.

use crate::clock::local_time_text;
use crate::multi_spindle::{
    MultiSpindleResult, MultiSpindleResultRecord, MultiSpindleResultRecordView, SpindleResult,
};
use crate::protocol::field::{int_field, str_field, FieldBuilder};
use crate::protocol::parser::ten_pow;
use crate::protocol::text::{decimal_bytes, lemma_signed_text_fixed_width, signed_text, zero_padded};
use crate::protocol::ResponseData;
use vstd::prelude::*;
use vstd::string::*;
use vstd::utf8::*;

verus! {

/// MID 0101 data, sent to subscribed clients after each sync tightening
/// (revisions 1 to 3).
#[derive(Debug, Clone)]
pub struct MultiSpindleResultBroadcast {
    pub result: MultiSpindleResult,
    pub vin_number: String,
    pub job_id: u32,
    pub pset_id: u32,
    pub batch_size: u32,
    pub batch_counter: u32,
    /// 0 NOK, 1 OK, 2 not used.
    pub batch_status: u8,
    pub torque_min: i32,
    pub torque_max: i32,
    pub torque_target: i32,
    pub angle_min: i32,
    pub angle_max: i32,
    pub angle_target: i32,
    pub last_change_timestamp: String,
}

/// The 18 characters of one spindle's status: spindle number (2), channel
/// (2), overall status (1: OK 1, NOK 0), torque status (1), torque (6),
/// angle status (1) and angle (5).
pub open spec fn spindle_entry(s: SpindleResult) -> Seq<u8> {
    int_field(None, s.spindle_id as int, 2) + int_field(None, s.channel_id as int, 2) + int_field(
        None,
        if s.spec_is_ok() { 1 } else { 0 },
        1,
    ) + int_field(None, s.torque_status as int, 1) + int_field(None, s.torque as int, 6)
        + int_field(None, s.angle_status as int, 1) + int_field(None, s.angle as int, 5)
}

/// The status entries of all spindles, in order.
pub open spec fn spindle_section(s: Seq<SpindleResult>) -> Seq<u8>
    decreases s.len(),
{
    if s.len() == 0 {
        Seq::empty()
    } else {
        spindle_section(s.drop_last()) + spindle_entry(s.last())
    }
}

/// The VIN as written in parameter 02: its first 25 bytes when it has that
/// many, the whole VIN otherwise.
pub open spec fn vin_field_text(vin: Seq<char>) -> Seq<char> {
    if encode_utf8(vin).len() >= 25 {
        decode_utf8(encode_utf8(vin).subrange(0, 25))
    } else {
        vin
    }
}

/// Every spindle entry of MID 0101 is 18 bytes: bytes 1-2 the spindle
/// number, 3-4 the channel, byte 5 the spindle's own status ('1' when OK,
/// '0' otherwise), byte 6 its torque status, bytes 7-12 its torque, byte 13
/// its angle status and bytes 14-18 its angle, each number in decimal
/// zero-padded to its width.
pub proof fn spindle_entry_layout(s: SpindleResult)
    requires
        s.spindle_id < 100,
        s.channel_id < 100,
        s.torque_status <= 9,
        s.angle_status <= 9,
        0 <= s.torque < 1000000,
        0 <= s.angle < 100000,
    ensures
        spindle_entry(s).len() == 18,
        spindle_entry(s).subrange(0, 2) == zero_padded(decimal_bytes(s.spindle_id as nat), 2),
        spindle_entry(s).subrange(2, 4) == zero_padded(decimal_bytes(s.channel_id as nat), 2),
        spindle_entry(s)[4] == if s.spec_is_ok() {
            49u8
        } else {
            48u8
        },
        spindle_entry(s)[5] == 48 + s.torque_status,
        spindle_entry(s).subrange(6, 12) == zero_padded(decimal_bytes(s.torque as nat), 6),
        spindle_entry(s)[12] == 48 + s.angle_status,
        spindle_entry(s).subrange(13, 18) == zero_padded(decimal_bytes(s.angle as nat), 5),
{
    reveal_with_fuel(ten_pow, 7);
    let a = int_field(None, s.spindle_id as int, 2);
    let b = int_field(None, s.channel_id as int, 2);
    let c = int_field(None, if s.spec_is_ok() { 1 } else { 0 }, 1);
    let d = int_field(None, s.torque_status as int, 1);
    let e = int_field(None, s.torque as int, 6);
    let f = int_field(None, s.angle_status as int, 1);
    let g = int_field(None, s.angle as int, 5);
    lemma_signed_text_fixed_width(s.spindle_id as int, 2);
    lemma_signed_text_fixed_width(s.channel_id as int, 2);
    lemma_signed_text_fixed_width(if s.spec_is_ok() { 1 } else { 0 }, 1);
    lemma_signed_text_fixed_width(s.torque_status as int, 1);
    lemma_signed_text_fixed_width(s.torque as int, 6);
    lemma_signed_text_fixed_width(s.angle_status as int, 1);
    lemma_signed_text_fixed_width(s.angle as int, 5);
    assert(a =~= signed_text(s.spindle_id as int, 2));
    assert(b =~= signed_text(s.channel_id as int, 2));
    assert(c =~= signed_text(if s.spec_is_ok() { 1 } else { 0 }, 1));
    assert(d =~= signed_text(s.torque_status as int, 1));
    assert(e =~= signed_text(s.torque as int, 6));
    assert(f =~= signed_text(s.angle_status as int, 1));
    assert(g =~= signed_text(s.angle as int, 5));
    assert(decimal_bytes((if s.spec_is_ok() { 1int } else { 0int }) as nat) == seq![(if s.spec_is_ok() { 49u8 } else { 48u8 })]);
    assert(decimal_bytes(s.torque_status as nat) == seq![(48 + s.torque_status) as u8]);
    assert(decimal_bytes(s.angle_status as nat) == seq![(48 + s.angle_status) as u8]);
    let entry = spindle_entry(s);
    assert(entry == a + b + c + d + e + f + g);
    assert(entry.subrange(0, 2) =~= a);
    assert(entry.subrange(2, 4) =~= b);
    assert(entry[4] == c[0]);
    assert(entry[5] == d[0]);
    assert(entry.subrange(6, 12) =~= e);
    assert(entry[12] == f[0]);
    assert(entry.subrange(13, 18) =~= g);
}

fn push_spindle_entry(b: FieldBuilder, spindle: SpindleResult) -> (r: FieldBuilder)
    ensures
        r@ == b@ + spindle_entry(spindle),
{
    let ghost start = b@;
    let overall: i32 = if spindle.is_ok() { 1 } else { 0 };
    let b = b.add_int(None, spindle.spindle_id as i32, 2);
    let b = b.add_int(None, spindle.channel_id as i32, 2);
    let b = b.add_int(None, overall, 1);
    let b = b.add_int(None, spindle.torque_status as i32, 1);
    let b = b.add_int(None, spindle.torque, 6);
    let b = b.add_int(None, spindle.angle_status as i32, 1);
    let b = b.add_int(None, spindle.angle, 5);
    assert(b@ =~= start + spindle_entry(spindle));
    b
}

fn spindle_section_bytes(b: FieldBuilder, s: &Vec<SpindleResult>) -> (r: FieldBuilder)
    ensures
        r@ == b@ + spindle_section(s@),
{
    let mut b = b;
    let ghost start = b@;
    let mut k: usize = 0;
    while k < s.len()
        invariant
            k <= s@.len(),
            b@ == start + spindle_section(s@.take(k as int)),
        decreases s@.len() - k,
    {
        b = push_spindle_entry(b, s[k]);
        assert(s@.take(k + 1).drop_last() =~= s@.take(k as int));
        assert(s@.take(k + 1).last() == s@[k as int]);
        assert(b@ =~= start + spindle_section(s@.take(k + 1)));
        k = k + 1;
    }
    assert(s@.take(s@.len() as int) =~= s@);
    b
}

impl MultiSpindleResultBroadcast {
    /// A broadcast with the default limits (torque 45.00..55.00 Nm around
    /// 50.00, angle 170..190 degrees around 180), stamped with the current
    /// local time as the last change.
    pub fn new(
        result: MultiSpindleResult,
        vin_number: String,
        job_id: u32,
        pset_id: u32,
        batch_size: u32,
        batch_counter: u32,
        batch_status: u8,
    ) -> (r: Self)
        ensures
            r.result == result,
            r.vin_number == vin_number,
            r.job_id == job_id,
            r.pset_id == pset_id,
            r.batch_size == batch_size,
            r.batch_counter == batch_counter,
            r.batch_status == batch_status,
            r.torque_min == 4500,
            r.torque_max == 5500,
            r.torque_target == 5000,
            r.angle_min == 170,
            r.angle_max == 190,
            r.angle_target == 180,
    {
        let last_change_timestamp = match local_time_text(0, "%Y-%m-%d:%H:%M:%S") {
            Some(t) => t,
            None => String::new(),
        };
        MultiSpindleResultBroadcast {
            result,
            vin_number,
            job_id,
            pset_id,
            batch_size,
            batch_counter,
            batch_status,
            torque_min: 4500,
            torque_max: 5500,
            torque_target: 5000,
            angle_min: 170,
            angle_max: 190,
            angle_target: 180,
            last_change_timestamp,
        }
    }

    /// The broadcast of a stored result.
    pub fn from_record(record: &MultiSpindleResultRecord) -> (r: Self)
        ensures
            r@ == record@,
    {
        MultiSpindleResultBroadcast {
            result: record.result.duplicate(),
            vin_number: record.vin_number.clone(),
            job_id: record.job_id,
            pset_id: record.pset_id,
            batch_size: record.batch_size,
            batch_counter: record.batch_counter,
            batch_status: record.batch_status,
            torque_min: record.torque_min,
            torque_max: record.torque_max,
            torque_target: record.torque_target,
            angle_min: record.angle_min,
            angle_max: record.angle_max,
            angle_target: record.angle_target,
            last_change_timestamp: record.last_change_timestamp.clone(),
        }
    }
}

/// The MID 0101 data section of a stored result: parameters 01 to 17 in
/// order, the status of every spindle, then the parameter 18 marker.
/// Parameter 17 carries the result's overall status as the result holds it
/// (0 when every spindle is OK, 1 otherwise), while each spindle's own
/// status byte is 1 for OK.
pub open spec fn record_wire(r: MultiSpindleResultRecordView) -> Seq<u8> {
    int_field(Some(1), r.result.spindle_count as int, 2) + str_field(
        Some(2),
        vin_field_text(r.vin_number),
        25,
    ) + int_field(Some(3), r.job_id as i32 as int, 2) + int_field(
        Some(4),
        r.pset_id as i32 as int,
        3,
    ) + int_field(Some(5), r.batch_size as i32 as int, 4) + int_field(
        Some(6),
        r.batch_counter as i32 as int,
        4,
    ) + int_field(Some(7), r.batch_status as int, 1) + int_field(
        Some(8),
        r.torque_min as int,
        6,
    ) + int_field(Some(9), r.torque_max as int, 6) + int_field(
        Some(10),
        r.torque_target as int,
        6,
    ) + int_field(Some(11), r.angle_min as int, 5) + int_field(
        Some(12),
        r.angle_max as int,
        5,
    ) + int_field(Some(13), r.angle_target as int, 5) + str_field(
        Some(14),
        r.last_change_timestamp,
        19,
    ) + str_field(Some(15), r.result.timestamp, 19) + int_field(
        Some(16),
        r.result.result_id as i32 as int,
        5,
    ) + int_field(Some(17), r.result.overall_status as int, 1) + spindle_section(
        r.result.spindle_results,
    ) + int_field(Some(18), 0, 0)
}

/// Whether a VIN can be written in parameter 02: it is cut after 25 bytes,
/// which must end a character.
pub open spec fn vin_encodable(vin: Seq<char>) -> bool {
    encode_utf8(vin).len() < 25 || is_char_boundary(
        encode_utf8(vin),
        25,
    )
}

/// Whether `vin` can be written in parameter 02 of MID 0101.
pub fn vin_fits(vin: &str) -> (r: bool)
    ensures
        r == vin_encodable(vin@),
{
    vin.as_bytes().len() < 25 || vin.is_char_boundary(25)
}

impl View for MultiSpindleResultBroadcast {
    type V = MultiSpindleResultRecordView;

    open spec fn view(&self) -> MultiSpindleResultRecordView {
        MultiSpindleResultRecordView {
            result: self.result@,
            vin_number: self.vin_number@,
            job_id: self.job_id,
            pset_id: self.pset_id,
            batch_size: self.batch_size,
            batch_counter: self.batch_counter,
            batch_status: self.batch_status,
            torque_min: self.torque_min,
            torque_max: self.torque_max,
            torque_target: self.torque_target,
            angle_min: self.angle_min,
            angle_max: self.angle_max,
            angle_target: self.angle_target,
            last_change_timestamp: self.last_change_timestamp@,
        }
    }
}

impl ResponseData for MultiSpindleResultBroadcast {
    open spec fn wire(&self) -> Seq<u8> {
        record_wire(self@)
    }

    open spec fn encodable(&self) -> bool {
        vin_encodable(self.vin_number@)
    }

    fn serialize(&self) -> (r: Vec<u8>) {
        let mut b = FieldBuilder::new();
        b = b.add_int(Some(1), self.result.spindle_count as i32, 2);
        assert(b@ =~= int_field(Some(1), self.result.spindle_count as int, 2));
        let vin: &str = self.vin_number.as_str();
        if vin.as_bytes().len() >= 25 {
            let (head, _) = vin.split_at(25);
            proof {
                encode_utf8_decode_utf8(head@);
            }
            assert(head@ == vin_field_text(self.vin_number@));
            b = b.add_str(Some(2), head, 25);
        } else {
            assert(vin.spec_bytes().len() < 25);
            assert(vin@ == vin_field_text(self.vin_number@));
            b = b.add_str(Some(2), vin, 25);
        }
        assert(b@ =~= int_field(Some(1), self.result.spindle_count as int, 2) + str_field(
            Some(2),
            vin_field_text(self.vin_number@),
            25,
        ));
        let job_id = (#[verifier::truncate] (self.job_id as i32));
        let pset_id = (#[verifier::truncate] (self.pset_id as i32));
        let batch_size = (#[verifier::truncate] (self.batch_size as i32));
        let batch_counter = (#[verifier::truncate] (self.batch_counter as i32));
        let result_id = (#[verifier::truncate] (self.result.result_id as i32));
        b = b.add_int(Some(3), job_id, 2);
        b = b.add_int(Some(4), pset_id, 3);
        b = b.add_int(Some(5), batch_size, 4);
        b = b.add_int(Some(6), batch_counter, 4);
        b = b.add_int(Some(7), self.batch_status as i32, 1);
        b = b.add_int(Some(8), self.torque_min, 6);
        b = b.add_int(Some(9), self.torque_max, 6);
        b = b.add_int(Some(10), self.torque_target, 6);
        b = b.add_int(Some(11), self.angle_min, 5);
        b = b.add_int(Some(12), self.angle_max, 5);
        b = b.add_int(Some(13), self.angle_target, 5);
        b = b.add_str(Some(14), self.last_change_timestamp.as_str(), 19);
        b = b.add_str(Some(15), self.result.timestamp.as_str(), 19);
        b = b.add_int(Some(16), result_id, 5);
        b = b.add_int(Some(17), self.result.overall_status as i32, 1);
        b = spindle_section_bytes(b, &self.result.spindle_results);
        b = b.add_int(Some(18), 0, 0);
        let r = b.build();
        assert(r@ =~= self.wire());
        r
    }
}

} // verus!
