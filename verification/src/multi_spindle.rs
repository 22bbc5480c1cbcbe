//! Multi-spindle configuration, per-spindle results and their aggregation.

use crate::clock::local_time_text;
use vstd::prelude::*;

verus! {

/// Configuration for multi-spindle operation mode.
#[derive(Debug, Clone, Copy, PartialEq, Eq, Structural)]
pub struct MultiSpindleConfig {
    /// Whether multi-spindle mode is enabled.
    pub enabled: bool,
    /// Number of spindles in the multi-spindle system.
    pub spindle_count: u8,
    /// Sync tightening ID that groups spindles together.
    pub sync_id: u32,
}

/// The single-spindle configuration that a device starts with.
pub open spec fn single_spindle_config() -> MultiSpindleConfig {
    MultiSpindleConfig { enabled: false, spindle_count: 1, sync_id: 0 }
}

impl Default for MultiSpindleConfig {
    fn default() -> (r: Self)
        ensures
            r == single_spindle_config(),
    {
        MultiSpindleConfig { enabled: false, spindle_count: 1, sync_id: 0 }
    }
}

impl MultiSpindleConfig {
    /// An enabled configuration with the given spindle count and sync ID.
    pub fn new(spindle_count: u8, sync_id: u32) -> (r: Self)
        ensures
            r == (MultiSpindleConfig { enabled: true, spindle_count, sync_id }),
    {
        MultiSpindleConfig { enabled: true, spindle_count, sync_id }
    }

    /// The single-spindle configuration.
    pub fn disable() -> (r: Self)
        ensures
            r == single_spindle_config(),
    {
        Self::default()
    }

    /// When a configuration is acceptable: a disabled one always, an enabled
    /// one with 2 to 16 spindles.
    pub open spec fn spec_is_valid(&self) -> bool {
        !self.enabled || (2 <= self.spindle_count && self.spindle_count <= 16)
    }

    /// Validates the configuration.
    pub fn is_valid(&self) -> (r: bool)
        ensures
            r == self.spec_is_valid(),
    {
        if !self.enabled {
            return true;
        }
        self.spindle_count >= 2 && self.spindle_count <= 16
    }
}

/// Individual spindle result within a multi-spindle operation.
#[derive(Debug, Clone, Copy, PartialEq, Eq, Structural)]
pub struct SpindleResult {
    /// Spindle number (1-based).
    pub spindle_id: u8,
    /// Channel ID (the spindle number).
    pub channel_id: u8,
    /// Final torque (Nm * 100).
    pub torque: i32,
    /// Final angle (degrees * 10).
    pub angle: i32,
    /// Torque status: OK (0) or NOK (1).
    pub torque_status: u8,
    /// Angle status: OK (0) or NOK (1).
    pub angle_status: u8,
}

impl SpindleResult {
    /// A spindle result that passed.
    pub fn ok(spindle_id: u8, torque: i32, angle: i32) -> (r: Self)
        ensures
            r == (SpindleResult {
                spindle_id,
                channel_id: spindle_id,
                torque,
                angle,
                torque_status: 0,
                angle_status: 0,
            }),
    {
        SpindleResult {
            spindle_id,
            channel_id: spindle_id,
            torque,
            angle,
            torque_status: 0,
            angle_status: 0,
        }
    }

    /// A spindle result that failed on torque and/or angle.
    pub fn nok(spindle_id: u8, torque: i32, angle: i32, torque_failed: bool, angle_failed: bool) -> (r: Self)
        ensures
            r == (SpindleResult {
                spindle_id,
                channel_id: spindle_id,
                torque,
                angle,
                torque_status: if torque_failed { 1 } else { 0 },
                angle_status: if angle_failed { 1 } else { 0 },
            }),
    {
        SpindleResult {
            spindle_id,
            channel_id: spindle_id,
            torque,
            angle,
            torque_status: if torque_failed { 1 } else { 0 },
            angle_status: if angle_failed { 1 } else { 0 },
        }
    }

    /// A spindle is OK when both its torque and its angle are OK.
    pub open spec fn spec_is_ok(&self) -> bool {
        self.torque_status == 0 && self.angle_status == 0
    }

    /// Whether this spindle result is OK.
    pub fn is_ok(&self) -> (r: bool)
        ensures
            r == self.spec_is_ok(),
    {
        self.torque_status == 0 && self.angle_status == 0
    }
}

/// The number of OK spindles in `s`.
pub open spec fn count_ok(s: Seq<SpindleResult>) -> nat
    decreases s.len(),
{
    if s.len() == 0 {
        0
    } else {
        count_ok(s.drop_last()) + if s.last().spec_is_ok() {
            1nat
        } else {
            0nat
        }
    }
}

/// The number of NOK spindles in `s`.
pub open spec fn count_nok(s: Seq<SpindleResult>) -> nat
    decreases s.len(),
{
    if s.len() == 0 {
        0
    } else {
        count_nok(s.drop_last()) + if s.last().spec_is_ok() {
            0nat
        } else {
            1nat
        }
    }
}

/// True when every spindle of `s` is OK.
pub open spec fn all_ok(s: Seq<SpindleResult>) -> bool {
    forall|i: int| 0 <= i < s.len() ==> (#[trigger] s[i]).spec_is_ok()
}

/// Aggregated multi-spindle tightening result.
#[derive(Debug, Clone)]
pub struct MultiSpindleResult {
    /// Identifier of this multi-spindle operation.
    pub result_id: u32,
    /// Sync tightening ID that groups these spindles.
    pub sync_id: u32,
    /// Time of the operation, `YYYY-MM-DD HH:MM:SS`.
    pub timestamp: String,
    /// Overall status: OK (0) or NOK (1).
    pub overall_status: u8,
    /// Number of spindles involved.
    pub spindle_count: u8,
    /// Individual results of the spindles.
    pub spindle_results: Vec<SpindleResult>,
}

/// The value of a [`MultiSpindleResult`].
pub struct MultiSpindleResultView {
    pub result_id: u32,
    pub sync_id: u32,
    pub timestamp: Seq<char>,
    pub overall_status: u8,
    pub spindle_count: u8,
    pub spindle_results: Seq<SpindleResult>,
}

impl View for MultiSpindleResult {
    type V = MultiSpindleResultView;

    open spec fn view(&self) -> MultiSpindleResultView {
        MultiSpindleResultView {
            result_id: self.result_id,
            sync_id: self.sync_id,
            timestamp: self.timestamp@,
            overall_status: self.overall_status,
            spindle_count: self.spindle_count,
            spindle_results: self.spindle_results@,
        }
    }
}

/// A copy of `v`.
pub fn copy_spindle_results(v: &Vec<SpindleResult>) -> (r: Vec<SpindleResult>)
    ensures
        r@ == v@,
{
    let mut out: Vec<SpindleResult> = Vec::new();
    let mut k: usize = 0;
    while k < v.len()
        invariant
            k <= v@.len(),
            out@ =~= v@.take(k as int),
        decreases v@.len() - k,
    {
        out.push(v[k]);
        k = k + 1;
    }
    assert(v@.take(v@.len() as int) =~= v@);
    out
}

impl MultiSpindleResult {
    /// A result for the given spindles, stamped with the current local time.
    pub fn new(result_id: u32, sync_id: u32, spindle_results: Vec<SpindleResult>) -> (r: Self)
        ensures
            r.result_id == result_id,
            r.sync_id == sync_id,
            r.spindle_results@ == spindle_results@,
            r.spindle_count == spindle_results@.len() as u8,
            r.overall_status == if all_ok(spindle_results@) { 0u8 } else { 1u8 },
    {
        let timestamp = match local_time_text(0, "%Y-%m-%d %H:%M:%S") {
            Some(t) => t,
            None => String::new(),
        };
        Self::new_at(result_id, sync_id, spindle_results, timestamp)
    }

    /// A result for the given spindles with the given timestamp: the overall
    /// status is OK (0) exactly when every spindle is OK, and the spindle
    /// count is the number of spindles.
    pub fn new_at(result_id: u32, sync_id: u32, spindle_results: Vec<SpindleResult>, timestamp: String) -> (r: Self)
        ensures
            r@ == (MultiSpindleResultView {
                result_id,
                sync_id,
                timestamp: timestamp@,
                overall_status: if all_ok(spindle_results@) { 0u8 } else { 1u8 },
                spindle_count: spindle_results@.len() as u8,
                spindle_results: spindle_results@,
            }),
    {
        #[verifier::truncate]
        let spindle_count = spindle_results.len() as u8;
        let mut every_ok = true;
        let mut k: usize = 0;
        while k < spindle_results.len()
            invariant
                k <= spindle_results@.len(),
                every_ok == all_ok(spindle_results@.take(k as int)),
            decreases spindle_results@.len() - k,
        {
            assert(spindle_results@.take(k + 1).drop_last() =~= spindle_results@.take(k as int));
            if !spindle_results[k].is_ok() {
                assert(spindle_results@.take(k + 1)[k as int] == spindle_results@[k as int]);
                every_ok = false;
            }
            proof {
                let t = spindle_results@.take(k + 1);
                if every_ok {
                    assert forall|i: int| 0 <= i < t.len() implies (#[trigger] t[i]).spec_is_ok() by {
                        if i < k {
                            assert(t[i] == spindle_results@.take(k as int)[i]);
                        }
                    }
                }
            }
            k = k + 1;
        }
        assert(spindle_results@.take(spindle_results@.len() as int) =~= spindle_results@);
        let overall_status: u8 = if every_ok { 0 } else { 1 };
        MultiSpindleResult {
            result_id,
            sync_id,
            timestamp,
            overall_status,
            spindle_count,
            spindle_results,
        }
    }

    /// A copy of this result.
    pub fn duplicate(&self) -> (r: Self)
        ensures
            r@ == self@,
    {
        MultiSpindleResult {
            result_id: self.result_id,
            sync_id: self.sync_id,
            timestamp: self.timestamp.clone(),
            overall_status: self.overall_status,
            spindle_count: self.spindle_count,
            spindle_results: copy_spindle_results(&self.spindle_results),
        }
    }

    /// Whether the overall result is OK.
    pub fn is_ok(&self) -> (r: bool)
        ensures
            r == (self.overall_status == 0),
    {
        self.overall_status == 0
    }

    /// The number of OK spindles.
    pub fn ok_count(&self) -> (r: usize)
        ensures
            r == count_ok(self.spindle_results@),
    {
        let mut count: usize = 0;
        let mut k: usize = 0;
        while k < self.spindle_results.len()
            invariant
                k <= self.spindle_results@.len(),
                count == count_ok(self.spindle_results@.take(k as int)),
                count <= k,
            decreases self.spindle_results@.len() - k,
        {
            assert(self.spindle_results@.take(k + 1).drop_last() =~= self.spindle_results@.take(k as int));
            if self.spindle_results[k].is_ok() {
                count = count + 1;
            }
            k = k + 1;
        }
        assert(self.spindle_results@.take(self.spindle_results@.len() as int) =~= self.spindle_results@);
        count
    }

    /// The number of NOK spindles.
    pub fn nok_count(&self) -> (r: usize)
        ensures
            r == count_nok(self.spindle_results@),
    {
        let mut count: usize = 0;
        let mut k: usize = 0;
        while k < self.spindle_results.len()
            invariant
                k <= self.spindle_results@.len(),
                count == count_nok(self.spindle_results@.take(k as int)),
                count <= k,
            decreases self.spindle_results@.len() - k,
        {
            assert(self.spindle_results@.take(k + 1).drop_last() =~= self.spindle_results@.take(k as int));
            if !self.spindle_results[k].is_ok() {
                count = count + 1;
            }
            k = k + 1;
        }
        assert(self.spindle_results@.take(self.spindle_results@.len() as int) =~= self.spindle_results@);
        count
    }
}


/// Every spindle is either OK or NOK: the OK and NOK counts of a result add
/// up to its number of spindle results.
pub proof fn ok_and_nok_counts_cover_all(s: Seq<SpindleResult>)
    ensures
        count_ok(s) + count_nok(s) == s.len(),
    decreases s.len(),
{
    if s.len() > 0 {
        ok_and_nok_counts_cover_all(s.drop_last());
    }
}

/// A result is OK exactly when it has no NOK spindle.
pub proof fn all_ok_iff_no_nok(s: Seq<SpindleResult>)
    ensures
        all_ok(s) <==> count_nok(s) == 0,
    decreases s.len(),
{
    if s.len() > 0 {
        all_ok_iff_no_nok(s.drop_last());
        if all_ok(s) {
            assert forall|i: int| 0 <= i < s.drop_last().len() implies (#[trigger] s.drop_last()[i]).spec_is_ok() by {
                assert(s.drop_last()[i] == s[i]);
            }
            assert(s[s.len() - 1].spec_is_ok());
        }
        if count_nok(s) == 0 {
            assert forall|i: int| 0 <= i < s.len() implies (#[trigger] s[i]).spec_is_ok() by {
                if i < s.len() - 1 {
                    assert(s.drop_last()[i] == s[i]);
                }
            }
        }
    }
}

/// Stored multi-spindle result snapshot used to replay MID 0101 results.
#[derive(Debug, Clone)]
pub struct MultiSpindleResultRecord {
    pub result: MultiSpindleResult,
    pub vin_number: String,
    pub job_id: u32,
    pub pset_id: u32,
    pub batch_size: u32,
    pub batch_counter: u32,
    pub batch_status: u8,
    pub torque_min: i32,
    pub torque_max: i32,
    pub torque_target: i32,
    pub angle_min: i32,
    pub angle_max: i32,
    pub angle_target: i32,
    pub last_change_timestamp: String,
}

/// The value of a [`MultiSpindleResultRecord`].
pub struct MultiSpindleResultRecordView {
    pub result: MultiSpindleResultView,
    pub vin_number: Seq<char>,
    pub job_id: u32,
    pub pset_id: u32,
    pub batch_size: u32,
    pub batch_counter: u32,
    pub batch_status: u8,
    pub torque_min: i32,
    pub torque_max: i32,
    pub torque_target: i32,
    pub angle_min: i32,
    pub angle_max: i32,
    pub angle_target: i32,
    pub last_change_timestamp: Seq<char>,
}

impl View for MultiSpindleResultRecord {
    type V = MultiSpindleResultRecordView;

    open spec fn view(&self) -> MultiSpindleResultRecordView {
        MultiSpindleResultRecordView {
            result: self.result@,
            vin_number: self.vin_number@,
            job_id: self.job_id,
            pset_id: self.pset_id,
            batch_size: self.batch_size,
            batch_counter: self.batch_counter,
            batch_status: self.batch_status,
            torque_min: self.torque_min,
            torque_max: self.torque_max,
            torque_target: self.torque_target,
            angle_min: self.angle_min,
            angle_max: self.angle_max,
            angle_target: self.angle_target,
            last_change_timestamp: self.last_change_timestamp@,
        }
    }
}

impl MultiSpindleResultRecord {
    /// The ID of the stored result.
    pub fn result_id(&self) -> (r: u32)
        ensures
            r == self.result.result_id,
    {
        self.result.result_id
    }

    /// A copy of this record.
    pub fn duplicate(&self) -> (r: Self)
        ensures
            r@ == self@,
    {
        MultiSpindleResultRecord {
            result: self.result.duplicate(),
            vin_number: self.vin_number.clone(),
            job_id: self.job_id,
            pset_id: self.pset_id,
            batch_size: self.batch_size,
            batch_counter: self.batch_counter,
            batch_status: self.batch_status,
            torque_min: self.torque_min,
            torque_max: self.torque_max,
            torque_target: self.torque_target,
            angle_min: self.angle_min,
            angle_max: self.angle_max,
            angle_target: self.angle_target,
            last_change_timestamp: self.last_change_timestamp.clone(),
        }
    }
}

/// Lightweight multi-spindle status for MID 0091 broadcasts.
#[derive(Debug, Clone)]
pub struct MultiSpindleStatus {
    /// Sync tightening ID.
    pub sync_id: u32,
    /// Status: 0 waiting, 1 running, 2 completed.
    pub status: u8,
    /// Number of spindles configured.
    pub spindle_count: u8,
    /// Time of the status change, `YYYY-MM-DD HH:MM:SS`.
    pub timestamp: String,
}

impl MultiSpindleStatus {
    /// A status stamped with the current local time.
    fn now(sync_id: u32, status: u8, spindle_count: u8) -> (r: Self)
        ensures
            r.sync_id == sync_id,
            r.status == status,
            r.spindle_count == spindle_count,
    {
        let timestamp = match local_time_text(0, "%Y-%m-%d %H:%M:%S") {
            Some(t) => t,
            None => String::new(),
        };
        MultiSpindleStatus { sync_id, status, spindle_count, timestamp }
    }

    /// The "waiting" status (0).
    pub fn waiting(sync_id: u32, spindle_count: u8) -> (r: Self)
        ensures
            r.sync_id == sync_id,
            r.status == 0,
            r.spindle_count == spindle_count,
    {
        Self::now(sync_id, 0, spindle_count)
    }

    /// The "running" status (1).
    pub fn running(sync_id: u32, spindle_count: u8) -> (r: Self)
        ensures
            r.sync_id == sync_id,
            r.status == 1,
            r.spindle_count == spindle_count,
    {
        Self::now(sync_id, 1, spindle_count)
    }

    /// The "completed" status (2).
    pub fn completed(sync_id: u32, spindle_count: u8) -> (r: Self)
        ensures
            r.sync_id == sync_id,
            r.status == 2,
            r.spindle_count == spindle_count,
    {
        Self::now(sync_id, 2, spindle_count)
    }
}

/// The simulated result of spindle `id` (1-based) out of `count`: torque
/// and angle grow by 50 and 10 per spindle from 5000 and 1800, and the last
/// spindle fails on torque (500 lower) when the result ID is a multiple of 10.
pub open spec fn simulated_spindle(id: int, count: int, result_id: u32) -> SpindleResult {
    let variation = (id - 1) * 5;
    let torque = 5000 + variation * 10;
    let angle = 1800 + variation * 2;
    if id != count || result_id % 10 != 0 {
        SpindleResult {
            spindle_id: id as u8,
            channel_id: id as u8,
            torque: torque as i32,
            angle: angle as i32,
            torque_status: 0,
            angle_status: 0,
        }
    } else {
        SpindleResult {
            spindle_id: id as u8,
            channel_id: id as u8,
            torque: (torque - 500) as i32,
            angle: angle as i32,
            torque_status: 1,
            angle_status: 0,
        }
    }
}

/// The simulated results of all `count` spindles, in spindle order.
pub open spec fn simulated_spindles(count: u8, result_id: u32) -> Seq<SpindleResult> {
    Seq::new(count as nat, |i: int| simulated_spindle(i + 1, count as int, result_id))
}

/// The simulation numbers the spindles 1, 2, ... in order; spindle `i + 1`
/// has nominal torque `5000 + 50 i` and angle `1800 + 10 i`. Every spindle
/// passes, except that when the result ID is a multiple of 10 the last one
/// fails on torque alone, 500 below its nominal torque; so the whole result
/// is OK exactly when the result ID is not a multiple of 10.
pub proof fn simulated_failure_is_on_torque(count: u8, result_id: u32, i: int)
    requires
        0 <= i < count,
    ensures
        simulated_spindles(count, result_id)[i].spindle_id == i + 1,
        simulated_spindles(count, result_id)[i].channel_id == i + 1,
        simulated_spindles(count, result_id)[i].angle == 1800 + 10 * i,
        if i == count - 1 && result_id % 10 == 0 {
            &&& simulated_spindles(count, result_id)[i].torque_status == 1
            &&& simulated_spindles(count, result_id)[i].angle_status == 0
            &&& simulated_spindles(count, result_id)[i].torque == 5000 + 50 * i - 500
        } else {
            &&& simulated_spindles(count, result_id)[i].torque_status == 0
            &&& simulated_spindles(count, result_id)[i].angle_status == 0
            &&& simulated_spindles(count, result_id)[i].torque == 5000 + 50 * i
        },
        all_ok(simulated_spindles(count, result_id)) <==> result_id % 10 != 0,
{
    let s = simulated_spindles(count, result_id);
    if result_id % 10 == 0 {
        assert(!s[count - 1].spec_is_ok());
    }
}

/// Simulates one multi-spindle tightening for the configured spindles.
pub fn generate_multi_spindle_results(config: &MultiSpindleConfig, result_id: u32, _pset_id: u32) -> (r: MultiSpindleResult)
    ensures
        r.result_id == result_id,
        r.sync_id == config.sync_id,
        r.spindle_results@ == simulated_spindles(config.spindle_count, result_id),
        r.spindle_count == config.spindle_count,
        r.overall_status == if all_ok(r.spindle_results@) { 0u8 } else { 1u8 },
{
    let count = config.spindle_count;
    let mut spindle_results: Vec<SpindleResult> = Vec::new();
    let mut next: u16 = 1;
    while next <= count as u16
        invariant
            1 <= next <= count as u16 + 1,
            count == config.spindle_count,
            spindle_results@ =~= simulated_spindles(count, result_id).take(next - 1),
        decreases count as u16 + 1 - next,
    {
        let spindle_id = next as u8;
        let base_torque: i32 = 5000;
        let base_angle: i32 = 1800;
        let variation: i32 = (spindle_id as i32 - 1) * 5;
        let torque = base_torque + (variation * 10);
        let angle = base_angle + (variation * 2);
        let is_ok = spindle_id != count || result_id % 10 != 0;
        let result = if is_ok {
            SpindleResult::ok(spindle_id, torque, angle)
        } else {
            SpindleResult::nok(spindle_id, torque - 500, angle, true, false)
        };
        spindle_results.push(result);
        assert(simulated_spindles(count, result_id)[next - 1] == result);
        next = next + 1;
    }
    assert(spindle_results@ =~= simulated_spindles(count, result_id));
    MultiSpindleResult::new(result_id, config.sync_id, spindle_results)
}

} // verus!
