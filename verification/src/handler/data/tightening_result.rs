//! MID 0061 - Last tightening result data.

use crate::protocol::field::{int_field, str_field, FieldBuilder};
use crate::protocol::ResponseData;
use vstd::prelude::*;

verus! {

/// MID 0061 data: the outcome of one tightening. Torques are held in
/// hundredths of a newton-metre and angles in whole degrees, the units in
/// which the protocol sends them.
#[derive(Debug, Clone)]
pub struct TighteningResult {
    /// Cell ID (parameter 01).
    pub cell_id: u32,
    /// Channel ID (parameter 02).
    pub channel_id: u32,
    /// Torque controller name (parameter 03).
    pub controller_name: String,
    /// VIN (parameter 04).
    pub vin_number: Option<String>,
    /// Job ID (parameter 05).
    pub job_id: u32,
    /// Parameter set ID (parameter 06).
    pub pset_id: u32,
    /// Batch size (parameter 07).
    pub batch_size: u32,
    /// Batch counter (parameter 08).
    pub batch_counter: u32,
    /// Tightening status (parameter 09).
    pub tightening_status: bool,
    /// Torque status (parameter 10).
    pub torque_status: bool,
    /// Angle status (parameter 11).
    pub angle_status: bool,
    /// Torque min limit, in hundredths of Nm (parameter 12).
    pub torque_min: i32,
    /// Torque max limit, in hundredths of Nm (parameter 13).
    pub torque_max: i32,
    /// Torque final target, in hundredths of Nm (parameter 14).
    pub torque_target: i32,
    /// Torque, in hundredths of Nm (parameter 15).
    pub torque: i32,
    /// Angle min, in degrees (parameter 16).
    pub angle_min: i32,
    /// Angle max, in degrees (parameter 17).
    pub angle_max: i32,
    /// Angle final target, in degrees (parameter 18).
    pub angle_target: i32,
    /// Angle, in degrees (parameter 19).
    pub angle: i32,
    /// Timestamp, `YYYY-MM-DD:HH:MM:SS` (parameter 20).
    pub timestamp: String,
    /// Last change in the parameter set (parameter 21).
    pub last_pset_change: Option<String>,
    /// Batch status (parameter 22).
    pub batch_status: Option<bool>,
    /// Tightening ID (parameter 23).
    pub tightening_id: Option<u32>,
    /// Strategy (revision 2).
    pub strategy: Option<u8>,
    /// Strategy options bit field (revision 2).
    pub strategy_options: Option<u32>,
    /// Rundown angle status (revision 2).
    pub rundown_angle_status: Option<u8>,
    /// Current monitoring status (revision 2).
    pub current_monitoring_status: Option<u8>,
    /// Self-tap status (revision 2).
    pub self_tap_status: Option<u8>,
    /// Prevail torque monitoring status (revision 2).
    pub prevail_torque_monitoring_status: Option<u8>,
    /// Prevail torque compensate status (revision 2).
    pub prevail_torque_compensate_status: Option<u8>,
    /// Tightening error status bit field (revision 2).
    pub tightening_error_status: Option<u64>,
    /// Rundown angle min, in degrees (revision 2).
    pub rundown_angle_min: Option<i32>,
    /// Rundown angle max, in degrees (revision 2).
    pub rundown_angle_max: Option<i32>,
    /// Rundown angle, in degrees (revision 2).
    pub rundown_angle: Option<i32>,
    /// Current monitoring min (revision 2).
    pub current_monitoring_min: Option<u16>,
    /// Current monitoring max (revision 2).
    pub current_monitoring_max: Option<u16>,
    /// Current monitoring value (revision 2).
    pub current_monitoring_value: Option<u16>,
    /// Self-tap min torque, in hundredths of Nm (revision 2).
    pub self_tap_min: Option<i32>,
    /// Self-tap max torque, in hundredths of Nm (revision 2).
    pub self_tap_max: Option<i32>,
    /// Self-tap torque, in hundredths of Nm (revision 2).
    pub self_tap_torque: Option<i32>,
    /// Prevail torque min, in hundredths of Nm (revision 2).
    pub prevail_torque_min: Option<i32>,
    /// Prevail torque max, in hundredths of Nm (revision 2).
    pub prevail_torque_max: Option<i32>,
    /// Prevail torque, in hundredths of Nm (revision 2).
    pub prevail_torque: Option<i32>,
    /// Job sequence number (revision 2).
    pub job_sequence_number: Option<u32>,
    /// Sync tightening ID (revision 2).
    pub sync_tightening_id: Option<u32>,
    /// Tool serial number (revision 2).
    pub tool_serial_number: Option<String>,
    /// Parameter set name (revision 3).
    pub pset_name: Option<String>,
    /// Torque values unit (revision 3).
    pub torque_unit: Option<u8>,
    /// Result type (revision 3).
    pub result_type: Option<u8>,
}

/// A status flag as sent: 1 for OK, 0 for NOK.
pub open spec fn status_code(status: bool) -> int {
    if status {
        1
    } else {
        0
    }
}

/// The batch status as sent: 1 OK, 0 NOK, 2 when there is no batch.
pub open spec fn batch_status_code(status: Option<bool>) -> int {
    match status {
        Some(true) => 1,
        Some(false) => 0,
        None => 2,
    }
}

/// The torque and angle parameters of revision 1, 12 to 19 in order: the
/// torque min limit, max limit, final target and torque in hundredths of Nm
/// (six digits), then the angle min, max, final target and angle in
/// degrees (five digits).
pub open spec fn revision_1_measured(t: TighteningResult) -> Seq<u8> {
    int_field(Some(12), t.torque_min as int, 6) + int_field(Some(13), t.torque_max as int, 6)
        + int_field(Some(14), t.torque_target as int, 6) + int_field(Some(15), t.torque as int, 6)
        + int_field(Some(16), t.angle_min as int, 5) + int_field(Some(17), t.angle_max as int, 5)
        + int_field(Some(18), t.angle_target as int, 5) + int_field(Some(19), t.angle as int, 5)
}

/// The torque and angle parameters of revisions 2 and 3, 21 to 28 in
/// order, with the same values and widths as parameters 12 to 19 of
/// revision 1.
pub open spec fn revision_2_measured(t: TighteningResult) -> Seq<u8> {
    int_field(Some(21), t.torque_min as int, 6) + int_field(Some(22), t.torque_max as int, 6)
        + int_field(Some(23), t.torque_target as int, 6) + int_field(Some(24), t.torque as int, 6)
        + int_field(Some(25), t.angle_min as int, 5) + int_field(Some(26), t.angle_max as int, 5)
        + int_field(Some(27), t.angle_target as int, 5) + int_field(Some(28), t.angle as int, 5)
}

/// Optional text, empty when absent.
pub open spec fn text_or_empty(text: Option<String>) -> Seq<char> {
    match text {
        Some(s) => s@,
        None => Seq::empty(),
    }
}

/// The revision 1 data section: parameters 01 to 23.
pub open spec fn revision_1_wire(t: TighteningResult) -> Seq<u8> {
    int_field(Some(1), t.cell_id as i32 as int, 4)
        + int_field(Some(2), t.channel_id as i32 as int, 2)
        + str_field(Some(3), t.controller_name@, 25)
        + str_field(Some(4), text_or_empty(t.vin_number), 25)
        + int_field(Some(5), t.job_id as i32 as int, 2)
        + int_field(Some(6), t.pset_id as i32 as int, 3)
        + int_field(Some(7), t.batch_size as i32 as int, 4)
        + int_field(Some(8), t.batch_counter as i32 as int, 4)
        + int_field(Some(9), status_code(t.tightening_status), 1)
        + int_field(Some(10), status_code(t.torque_status), 1)
        + int_field(Some(11), status_code(t.angle_status), 1)
        + int_field(Some(12), t.torque_min as int, 6)
        + int_field(Some(13), t.torque_max as int, 6)
        + int_field(Some(14), t.torque_target as int, 6)
        + int_field(Some(15), t.torque as int, 6)
        + int_field(Some(16), t.angle_min as int, 5)
        + int_field(Some(17), t.angle_max as int, 5)
        + int_field(Some(18), t.angle_target as int, 5)
        + int_field(Some(19), t.angle as int, 5)
        + str_field(Some(20), t.timestamp@, 19)
        + str_field(Some(21), text_or_empty(t.last_pset_change), 19)
        + int_field(Some(22), batch_status_code(t.batch_status), 1)
        + int_field(Some(23), t.tightening_id.unwrap_or(0) as i32 as int, 10)
}

/// Parameters 01 to 20 of revision 2: identification, batch and statuses.
pub open spec fn revision_2_head(t: TighteningResult) -> Seq<u8> {
    int_field(Some(1), t.cell_id as i32 as int, 4)
        + int_field(Some(2), t.channel_id as i32 as int, 2)
        + str_field(Some(3), t.controller_name@, 25)
        + str_field(Some(4), text_or_empty(t.vin_number), 25)
        + int_field(Some(5), t.job_id as i32 as int, 4)
        + int_field(Some(6), t.pset_id as i32 as int, 3)
        + int_field(Some(7), t.strategy.unwrap_or(1) as int, 2)
        + int_field(Some(8), t.strategy_options.unwrap_or(0) as i32 as int, 5)
        + int_field(Some(9), t.batch_size as i32 as int, 4)
        + int_field(Some(10), t.batch_counter as i32 as int, 4)
        + int_field(Some(11), status_code(t.tightening_status), 1)
        + int_field(Some(12), batch_status_code(t.batch_status), 1)
        + int_field(Some(13), status_code(t.torque_status), 1)
        + int_field(Some(14), status_code(t.angle_status), 1)
        + int_field(Some(15), t.rundown_angle_status.unwrap_or(1) as int, 1)
        + int_field(Some(16), t.current_monitoring_status.unwrap_or(1) as int, 1)
        + int_field(Some(17), t.self_tap_status.unwrap_or(1) as int, 1)
        + int_field(Some(18), t.prevail_torque_monitoring_status.unwrap_or(1) as int, 1)
        + int_field(Some(19), t.prevail_torque_compensate_status.unwrap_or(1) as int, 1)
        + int_field(Some(20), t.tightening_error_status.unwrap_or(0) as i32 as int, 10)
}

/// Parameters 21 to 40 of revision 2: limits and measured values.
pub open spec fn revision_2_measures(t: TighteningResult) -> Seq<u8> {
    int_field(Some(21), t.torque_min as int, 6)
        + int_field(Some(22), t.torque_max as int, 6)
        + int_field(Some(23), t.torque_target as int, 6)
        + int_field(Some(24), t.torque as int, 6)
        + int_field(Some(25), t.angle_min as int, 5)
        + int_field(Some(26), t.angle_max as int, 5)
        + int_field(Some(27), t.angle_target as int, 5)
        + int_field(Some(28), t.angle as int, 5)
        + int_field(Some(29), t.rundown_angle_min.unwrap_or(0) as int, 5)
        + int_field(Some(30), t.rundown_angle_max.unwrap_or(0) as int, 5)
        + int_field(Some(31), t.rundown_angle.unwrap_or(0) as int, 5)
        + int_field(Some(32), t.current_monitoring_min.unwrap_or(0) as int, 3)
        + int_field(Some(33), t.current_monitoring_max.unwrap_or(0) as int, 3)
        + int_field(Some(34), t.current_monitoring_value.unwrap_or(0) as int, 3)
        + int_field(Some(35), t.self_tap_min.unwrap_or(0) as int, 6)
        + int_field(Some(36), t.self_tap_max.unwrap_or(0) as int, 6)
        + int_field(Some(37), t.self_tap_torque.unwrap_or(0) as int, 6)
        + int_field(Some(38), t.prevail_torque_min.unwrap_or(0) as int, 6)
        + int_field(Some(39), t.prevail_torque_max.unwrap_or(0) as int, 6)
        + int_field(Some(40), t.prevail_torque.unwrap_or(0) as int, 6)
}

/// Parameters 41 to 46 of revision 2: identifiers and timestamps.
pub open spec fn revision_2_tail(t: TighteningResult) -> Seq<u8> {
    int_field(Some(41), t.tightening_id.unwrap_or(0) as i32 as int, 10)
        + int_field(Some(42), t.job_sequence_number.unwrap_or(0) as i32 as int, 5)
        + int_field(Some(43), t.sync_tightening_id.unwrap_or(0) as i32 as int, 5)
        + str_field(Some(44), text_or_empty(t.tool_serial_number), 14)
        + str_field(Some(45), t.timestamp@, 19)
        + str_field(Some(46), text_or_empty(t.last_pset_change), 19)
}

/// The revision 2 data section: parameters 01 to 46.
pub open spec fn revision_2_wire(t: TighteningResult) -> Seq<u8> {
    revision_2_head(t) + revision_2_measures(t) + revision_2_tail(t)
}

/// Parameters 47 to 49, which revision 3 adds.
pub open spec fn revision_3_extra(t: TighteningResult) -> Seq<u8> {
    str_field(Some(47), text_or_empty(t.pset_name), 25)
        + int_field(Some(48), t.torque_unit.unwrap_or(1) as int, 1)
        + int_field(Some(49), t.result_type.unwrap_or(1) as int, 2)
}

/// The revision 3 data section: revision 2, then parameters 47 to 49.
pub open spec fn revision_3_wire(t: TighteningResult) -> Seq<u8> {
    revision_2_wire(t) + revision_3_extra(t)
}

/// The data section sent for `revision`: revisions 2 and 3 have their own
/// layouts, and every other revision gets the revision 1 layout.
pub open spec fn tightening_wire(t: TighteningResult, revision: u8) -> Seq<u8> {
    if revision == 2 {
        revision_2_wire(t)
    } else if revision == 3 {
        revision_3_wire(t)
    } else {
        revision_1_wire(t)
    }
}

proof fn lemma_add_assoc(a: Seq<u8>, b: Seq<u8>, c: Seq<u8>)
    ensures
        a + (b + c) == a + b + c,
{
    assert(a + (b + c) =~= a + b + c);
}

proof fn lemma_revision_1_measured_in_place(t: TighteningResult)
    ensures
        exists|before: Seq<u8>, after: Seq<u8>|
            #![trigger before + revision_1_measured(t) + after]
            revision_1_wire(t) == before + revision_1_measured(t) + after,
{
    let f1 = int_field(Some(1), t.cell_id as i32 as int, 4);
    let f2 = int_field(Some(2), t.channel_id as i32 as int, 2);
    let f3 = str_field(Some(3), t.controller_name@, 25);
    let f4 = str_field(Some(4), text_or_empty(t.vin_number), 25);
    let f5 = int_field(Some(5), t.job_id as i32 as int, 2);
    let f6 = int_field(Some(6), t.pset_id as i32 as int, 3);
    let f7 = int_field(Some(7), t.batch_size as i32 as int, 4);
    let f8 = int_field(Some(8), t.batch_counter as i32 as int, 4);
    let f9 = int_field(Some(9), status_code(t.tightening_status), 1);
    let f10 = int_field(Some(10), status_code(t.torque_status), 1);
    let f11 = int_field(Some(11), status_code(t.angle_status), 1);
    let g12 = int_field(Some(12), t.torque_min as int, 6);
    let g13 = int_field(Some(13), t.torque_max as int, 6);
    let g14 = int_field(Some(14), t.torque_target as int, 6);
    let g15 = int_field(Some(15), t.torque as int, 6);
    let g16 = int_field(Some(16), t.angle_min as int, 5);
    let g17 = int_field(Some(17), t.angle_max as int, 5);
    let g18 = int_field(Some(18), t.angle_target as int, 5);
    let g19 = int_field(Some(19), t.angle as int, 5);
    let h20 = str_field(Some(20), t.timestamp@, 19);
    let h21 = str_field(Some(21), text_or_empty(t.last_pset_change), 19);
    let h22 = int_field(Some(22), batch_status_code(t.batch_status), 1);
    let h23 = int_field(Some(23), t.tightening_id.unwrap_or(0) as i32 as int, 10);
    let before = ((((((((((f1 + f2) + f3) + f4) + f5) + f6) + f7) + f8) + f9) + f10) + f11);
    let m = (((((((g12 + g13) + g14) + g15) + g16) + g17) + g18) + g19);
    assert(m == revision_1_measured(t));
    lemma_add_assoc(before, g12, g13);
    lemma_add_assoc(before, (g12 + g13), g14);
    lemma_add_assoc(before, ((g12 + g13) + g14), g15);
    lemma_add_assoc(before, (((g12 + g13) + g14) + g15), g16);
    lemma_add_assoc(before, ((((g12 + g13) + g14) + g15) + g16), g17);
    lemma_add_assoc(before, (((((g12 + g13) + g14) + g15) + g16) + g17), g18);
    lemma_add_assoc(before, ((((((g12 + g13) + g14) + g15) + g16) + g17) + g18), g19);
    let x = before + m;
    let after = (((h20 + h21) + h22) + h23);
    lemma_add_assoc(x, h20, h21);
    lemma_add_assoc(x, (h20 + h21), h22);
    lemma_add_assoc(x, ((h20 + h21) + h22), h23);
    assert(revision_1_wire(t) == x + after);
    assert(revision_1_wire(t) == before + revision_1_measured(t) + after);
}

proof fn lemma_revision_2_measured_in_place(t: TighteningResult)
    ensures
        exists|before: Seq<u8>, after: Seq<u8>|
            #![trigger before + revision_2_measured(t) + after]
            revision_2_wire(t) == before + revision_2_measured(t) + after,
{
    let g21 = int_field(Some(21), t.torque_min as int, 6);
    let g22 = int_field(Some(22), t.torque_max as int, 6);
    let g23 = int_field(Some(23), t.torque_target as int, 6);
    let g24 = int_field(Some(24), t.torque as int, 6);
    let g25 = int_field(Some(25), t.angle_min as int, 5);
    let g26 = int_field(Some(26), t.angle_max as int, 5);
    let g27 = int_field(Some(27), t.angle_target as int, 5);
    let g28 = int_field(Some(28), t.angle as int, 5);
    let h29 = int_field(Some(29), t.rundown_angle_min.unwrap_or(0) as int, 5);
    let h30 = int_field(Some(30), t.rundown_angle_max.unwrap_or(0) as int, 5);
    let h31 = int_field(Some(31), t.rundown_angle.unwrap_or(0) as int, 5);
    let h32 = int_field(Some(32), t.current_monitoring_min.unwrap_or(0) as int, 3);
    let h33 = int_field(Some(33), t.current_monitoring_max.unwrap_or(0) as int, 3);
    let h34 = int_field(Some(34), t.current_monitoring_value.unwrap_or(0) as int, 3);
    let h35 = int_field(Some(35), t.self_tap_min.unwrap_or(0) as int, 6);
    let h36 = int_field(Some(36), t.self_tap_max.unwrap_or(0) as int, 6);
    let h37 = int_field(Some(37), t.self_tap_torque.unwrap_or(0) as int, 6);
    let h38 = int_field(Some(38), t.prevail_torque_min.unwrap_or(0) as int, 6);
    let h39 = int_field(Some(39), t.prevail_torque_max.unwrap_or(0) as int, 6);
    let h40 = int_field(Some(40), t.prevail_torque.unwrap_or(0) as int, 6);
    let m = (((((((g21 + g22) + g23) + g24) + g25) + g26) + g27) + g28);
    assert(m == revision_2_measured(t));
    lemma_add_assoc(m, h29, h30);
    lemma_add_assoc(m, (h29 + h30), h31);
    lemma_add_assoc(m, ((h29 + h30) + h31), h32);
    lemma_add_assoc(m, (((h29 + h30) + h31) + h32), h33);
    lemma_add_assoc(m, ((((h29 + h30) + h31) + h32) + h33), h34);
    lemma_add_assoc(m, (((((h29 + h30) + h31) + h32) + h33) + h34), h35);
    lemma_add_assoc(m, ((((((h29 + h30) + h31) + h32) + h33) + h34) + h35), h36);
    lemma_add_assoc(m, (((((((h29 + h30) + h31) + h32) + h33) + h34) + h35) + h36), h37);
    lemma_add_assoc(m, ((((((((h29 + h30) + h31) + h32) + h33) + h34) + h35) + h36) + h37), h38);
    lemma_add_assoc(m, (((((((((h29 + h30) + h31) + h32) + h33) + h34) + h35) + h36) + h37) + h38), h39);
    lemma_add_assoc(m, ((((((((((h29 + h30) + h31) + h32) + h33) + h34) + h35) + h36) + h37) + h38) + h39), h40);
    let rest = (((((((((((h29 + h30) + h31) + h32) + h33) + h34) + h35) + h36) + h37) + h38) + h39) + h40);
    assert(revision_2_measures(t) == m + rest);
    let before = revision_2_head(t);
    let tail = revision_2_tail(t);
    lemma_add_assoc(before, m, rest);
    lemma_add_assoc(before + m, rest, tail);
    assert(revision_2_wire(t) == before + revision_2_measured(t) + (rest + tail));
}

/// In every revision the torque and angle limits, targets and results
/// travel together as one run of parameters in the order min, max, target,
/// actual (torques first, then angles): parameters 12 to 19 in revision 1
/// and 21 to 28 in revisions 2 and 3; revision 3 begins with the whole of
/// revision 2.
pub proof fn measured_values_in_place(t: TighteningResult)
    ensures
        exists|before: Seq<u8>, after: Seq<u8>|
            #![trigger before + revision_1_measured(t) + after]
            revision_1_wire(t) == before + revision_1_measured(t) + after,
        exists|before: Seq<u8>, after: Seq<u8>|
            #![trigger before + revision_2_measured(t) + after]
            revision_2_wire(t) == before + revision_2_measured(t) + after,
        revision_3_wire(t).subrange(0, revision_2_wire(t).len() as int) == revision_2_wire(t),
{
    lemma_revision_1_measured_in_place(t);
    lemma_revision_2_measured_in_place(t);
    assert(revision_3_wire(t).subrange(0, revision_2_wire(t).len() as int) =~= revision_2_wire(t));
}

/// The text of an optional string, empty when absent.
fn text_of(text: &Option<String>) -> (r: &str)
    ensures
        r@ == text_or_empty(*text),
{
    match text {
        Some(s) => s.as_str(),
        None => {
            proof {
                reveal_strlit("");
            }
            ""
        },
    }
}

fn status_value(status: bool) -> (r: i32)
    ensures
        r == status_code(status),
{
    if status {
        1
    } else {
        0
    }
}

impl TighteningResult {
    /// A sample result: cell 1, channel 1, a batch of 10 at count 5, all
    /// statuses OK, torque 12.30 Nm within 10.00..15.00 (target 12.50),
    /// angle 39 degrees within 30..50 (target 40), and sample values for
    /// every optional field.
    pub fn example() -> (r: Self)
        ensures
            r.cell_id == 1 && r.channel_id == 1,
            r.controller_name@ == "Simulator"@,
            r.vin_number matches Some(v) && v@ == "TEST123456789"@,
            r.job_id == 1 && r.pset_id == 1 && r.batch_size == 10 && r.batch_counter == 5,
            r.tightening_status && r.torque_status && r.angle_status,
            r.torque_min == 1000 && r.torque_max == 1500 && r.torque_target == 1250,
            r.torque == 1230,
            r.angle_min == 30 && r.angle_max == 50 && r.angle_target == 40 && r.angle == 39,
            r.timestamp@ == "2025-01-15:10:30:45"@,
            r.last_pset_change matches Some(c) && c@ == "2025-01-15:09:00:00"@,
            r.batch_status == Some(true),
            r.tightening_id == Some(12345u32),
            r.strategy == Some(1u8) && r.strategy_options == Some(0u32),
            r.rundown_angle_status == Some(1u8) && r.current_monitoring_status == Some(1u8),
            r.self_tap_status == Some(1u8) && r.prevail_torque_monitoring_status == Some(1u8),
            r.prevail_torque_compensate_status == Some(1u8),
            r.tightening_error_status == Some(0u64),
            r.rundown_angle_min == Some(10i32) && r.rundown_angle_max == Some(20i32),
            r.rundown_angle == Some(15i32),
            r.current_monitoring_min == Some(10u16) && r.current_monitoring_max == Some(90u16),
            r.current_monitoring_value == Some(50u16),
            r.self_tap_min == Some(100i32) && r.self_tap_max == Some(200i32),
            r.self_tap_torque == Some(150i32),
            r.prevail_torque_min == Some(200i32) && r.prevail_torque_max == Some(300i32),
            r.prevail_torque == Some(250i32),
            r.job_sequence_number == Some(12u32) && r.sync_tightening_id == Some(7u32),
            r.tool_serial_number matches Some(n) && n@ == "SIM-TOOL-0001"@,
            r.pset_name matches Some(n) && n@ == "Default"@,
            r.torque_unit == Some(1u8) && r.result_type == Some(1u8),
    {
        TighteningResult {
            cell_id: 1,
            channel_id: 1,
            controller_name: String::from_str("Simulator"),
            vin_number: Some(String::from_str("TEST123456789")),
            job_id: 1,
            pset_id: 1,
            batch_size: 10,
            batch_counter: 5,
            tightening_status: true,
            torque_status: true,
            angle_status: true,
            torque_min: 1000,
            torque_max: 1500,
            torque_target: 1250,
            torque: 1230,
            angle_min: 30,
            angle_max: 50,
            angle_target: 40,
            angle: 39,
            timestamp: String::from_str("2025-01-15:10:30:45"),
            last_pset_change: Some(String::from_str("2025-01-15:09:00:00")),
            batch_status: Some(true),
            tightening_id: Some(12345),
            strategy: Some(1),
            strategy_options: Some(0),
            rundown_angle_status: Some(1),
            current_monitoring_status: Some(1),
            self_tap_status: Some(1),
            prevail_torque_monitoring_status: Some(1),
            prevail_torque_compensate_status: Some(1),
            tightening_error_status: Some(0),
            rundown_angle_min: Some(10),
            rundown_angle_max: Some(20),
            rundown_angle: Some(15),
            current_monitoring_min: Some(10),
            current_monitoring_max: Some(90),
            current_monitoring_value: Some(50),
            self_tap_min: Some(100),
            self_tap_max: Some(200),
            self_tap_torque: Some(150),
            prevail_torque_min: Some(200),
            prevail_torque_max: Some(300),
            prevail_torque: Some(250),
            job_sequence_number: Some(12),
            sync_tightening_id: Some(7),
            tool_serial_number: Some(String::from_str("SIM-TOOL-0001")),
            pset_name: Some(String::from_str("Default")),
            torque_unit: Some(1),
            result_type: Some(1),
        }
    }

    /// The batch status as sent: 1 OK, 0 NOK, 2 when there is no batch.
    pub fn batch_status_value(&self) -> (r: i32)
        ensures
            r == batch_status_code(self.batch_status),
    {
        match self.batch_status {
            Some(true) => 1,
            Some(false) => 0,
            None => 2,
        }
    }

    /// The data section for `revision`.
    pub fn serialize_for_revision(&self, revision: u8) -> (r: Vec<u8>)
        ensures
            r@ == tightening_wire(*self, revision),
    {
        match revision {
            2 => self.serialize_revision_2(),
            3 => self.serialize_revision_3(),
            _ => self.serialize_revision_1(),
        }
    }

    fn serialize_revision_1(&self) -> (r: Vec<u8>)
        ensures
            r@ == revision_1_wire(*self),
    {
        let b = FieldBuilder::new()
            .add_int(Some(1), #[verifier::truncate] (self.cell_id as i32), 4)
            .add_int(Some(2), #[verifier::truncate] (self.channel_id as i32), 2)
            .add_str(Some(3), self.controller_name.as_str(), 25)
            .add_str(Some(4), text_of(&self.vin_number), 25)
            .add_int(Some(5), #[verifier::truncate] (self.job_id as i32), 2)
            .add_int(Some(6), #[verifier::truncate] (self.pset_id as i32), 3)
            .add_int(Some(7), #[verifier::truncate] (self.batch_size as i32), 4)
            .add_int(Some(8), #[verifier::truncate] (self.batch_counter as i32), 4)
            .add_int(Some(9), status_value(self.tightening_status), 1)
            .add_int(Some(10), status_value(self.torque_status), 1)
            .add_int(Some(11), status_value(self.angle_status), 1)
            .add_int(Some(12), self.torque_min, 6)
            .add_int(Some(13), self.torque_max, 6)
            .add_int(Some(14), self.torque_target, 6)
            .add_int(Some(15), self.torque, 6)
            .add_int(Some(16), self.angle_min, 5)
            .add_int(Some(17), self.angle_max, 5)
            .add_int(Some(18), self.angle_target, 5)
            .add_int(Some(19), self.angle, 5)
            .add_str(Some(20), self.timestamp.as_str(), 19)
            .add_str(Some(21), text_of(&self.last_pset_change), 19)
            .add_int(Some(22), self.batch_status_value(), 1)
            .add_int(Some(23), #[verifier::truncate] (self.tightening_id.unwrap_or(0) as i32), 10);
        let r = b.build();
        assert(r@ =~= revision_1_wire(*self));
        r
    }

    fn revision_2_head_bytes(&self) -> (r: Vec<u8>)
        ensures
            r@ == revision_2_head(*self),
    {
        let r = FieldBuilder::new()
            .add_int(Some(1), #[verifier::truncate] (self.cell_id as i32), 4)
            .add_int(Some(2), #[verifier::truncate] (self.channel_id as i32), 2)
            .add_str(Some(3), self.controller_name.as_str(), 25)
            .add_str(Some(4), text_of(&self.vin_number), 25)
            .add_int(Some(5), #[verifier::truncate] (self.job_id as i32), 4)
            .add_int(Some(6), #[verifier::truncate] (self.pset_id as i32), 3)
            .add_int(Some(7), self.strategy.unwrap_or(1) as i32, 2)
            .add_int(Some(8), #[verifier::truncate] (self.strategy_options.unwrap_or(0) as i32), 5)
            .add_int(Some(9), #[verifier::truncate] (self.batch_size as i32), 4)
            .add_int(Some(10), #[verifier::truncate] (self.batch_counter as i32), 4)
            .add_int(Some(11), status_value(self.tightening_status), 1)
            .add_int(Some(12), self.batch_status_value(), 1)
            .add_int(Some(13), status_value(self.torque_status), 1)
            .add_int(Some(14), status_value(self.angle_status), 1)
            .add_int(Some(15), self.rundown_angle_status.unwrap_or(1) as i32, 1)
            .add_int(Some(16), self.current_monitoring_status.unwrap_or(1) as i32, 1)
            .add_int(Some(17), self.self_tap_status.unwrap_or(1) as i32, 1)
            .add_int(Some(18), self.prevail_torque_monitoring_status.unwrap_or(1) as i32, 1)
            .add_int(Some(19), self.prevail_torque_compensate_status.unwrap_or(1) as i32, 1)
            .add_int(
                Some(20),
                #[verifier::truncate] (self.tightening_error_status.unwrap_or(0) as i32),
                10,
            ).build();
        assert(r@ =~= revision_2_head(*self));
        r
    }

    fn revision_2_measure_bytes(&self) -> (r: Vec<u8>)
        ensures
            r@ == revision_2_measures(*self),
    {
        let r = FieldBuilder::new().add_int(Some(21), self.torque_min, 6)
            .add_int(Some(22), self.torque_max, 6)
            .add_int(Some(23), self.torque_target, 6)
            .add_int(Some(24), self.torque, 6)
            .add_int(Some(25), self.angle_min, 5)
            .add_int(Some(26), self.angle_max, 5)
            .add_int(Some(27), self.angle_target, 5)
            .add_int(Some(28), self.angle, 5)
            .add_int(Some(29), self.rundown_angle_min.unwrap_or(0), 5)
            .add_int(Some(30), self.rundown_angle_max.unwrap_or(0), 5)
            .add_int(Some(31), self.rundown_angle.unwrap_or(0), 5)
            .add_int(Some(32), self.current_monitoring_min.unwrap_or(0) as i32, 3)
            .add_int(Some(33), self.current_monitoring_max.unwrap_or(0) as i32, 3)
            .add_int(Some(34), self.current_monitoring_value.unwrap_or(0) as i32, 3)
            .add_int(Some(35), self.self_tap_min.unwrap_or(0), 6)
            .add_int(Some(36), self.self_tap_max.unwrap_or(0), 6)
            .add_int(Some(37), self.self_tap_torque.unwrap_or(0), 6)
            .add_int(Some(38), self.prevail_torque_min.unwrap_or(0), 6)
            .add_int(Some(39), self.prevail_torque_max.unwrap_or(0), 6)
            .add_int(Some(40), self.prevail_torque.unwrap_or(0), 6)
            .build();
        assert(r@ =~= revision_2_measures(*self));
        r
    }

    fn revision_2_tail_bytes(&self) -> (r: Vec<u8>)
        ensures
            r@ == revision_2_tail(*self),
    {
        let r = FieldBuilder::new().add_int(Some(41), #[verifier::truncate] (self.tightening_id.unwrap_or(0) as i32), 10)
            .add_int(Some(42), #[verifier::truncate] (self.job_sequence_number.unwrap_or(0) as i32), 5)
            .add_int(Some(43), #[verifier::truncate] (self.sync_tightening_id.unwrap_or(0) as i32), 5)
            .add_str(Some(44), text_of(&self.tool_serial_number), 14)
            .add_str(Some(45), self.timestamp.as_str(), 19)
            .add_str(Some(46), text_of(&self.last_pset_change), 19).build();
        assert(r@ =~= revision_2_tail(*self));
        r
    }

    fn serialize_revision_2(&self) -> (r: Vec<u8>)
        ensures
            r@ == revision_2_wire(*self),
    {
        let mut data = self.revision_2_head_bytes();
        let mut measures = self.revision_2_measure_bytes();
        let mut tail = self.revision_2_tail_bytes();
        data.append(&mut measures);
        data.append(&mut tail);
        data
    }

    fn serialize_revision_3(&self) -> (r: Vec<u8>)
        ensures
            r@ == revision_3_wire(*self),
    {
        let mut data = self.serialize_revision_2();
        let mut tail = FieldBuilder::new()
            .add_str(Some(47), text_of(&self.pset_name), 25)
            .add_int(Some(48), self.torque_unit.unwrap_or(1) as i32, 1)
            .add_int(Some(49), self.result_type.unwrap_or(1) as i32, 2)
            .build();
        assert(tail@ =~= revision_3_extra(*self));
        data.append(&mut tail);
        data
    }
}

impl ResponseData for TighteningResult {
    open spec fn wire(&self) -> Seq<u8> {
        revision_1_wire(*self)
    }

    open spec fn encodable(&self) -> bool {
        true
    }

    fn serialize(&self) -> (r: Vec<u8>) {
        self.serialize_for_revision(1)
    }
}

} // verus!
