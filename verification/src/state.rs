//! The internal state of the simulated device.

use crate::clock::local_time_text;
use crate::config::DeviceConfig;
use crate::multi_spindle::{single_spindle_config, MultiSpindleConfig, MultiSpindleResultRecord};
use crate::protocol::text::{decimal_chars, decimal_string};
use crate::tightening_tracker::TighteningTracker;
use std::collections::VecDeque;
use vstd::prelude::*;

verus! {

/// The number of multi-spindle results kept for replay.
pub const MULTI_SPINDLE_HISTORY_LIMIT: usize = 100;

/// The direction the tool turns.
#[derive(Debug, Clone, Copy, PartialEq, Eq, Structural)]
pub enum ToolDirection {
    Cw,
    Ccw,
}

/// `chrono::NaiveDateTime`, a date and time without a time zone.
#[verifier::external_type_specification]
#[verifier::external_body]
pub struct ExNaiveDateTime(chrono::NaiveDateTime);

/// Whole seconds from the local wall-clock time, read to the whole second,
/// to `timestamp`: `Local::now().naive_local()`, truncated with
/// `SubsecRound::trunc_subsecs(0)`, then
/// `NaiveDateTime::signed_duration_since` and `TimeDelta::num_seconds`.
/// It depends on the clock, so nothing is stated.
#[verifier::external_body]
fn seconds_from_local_now(timestamp: &chrono::NaiveDateTime) -> (offset: i64) {
    let now = chrono::SubsecRound::trunc_subsecs(chrono::Local::now().naive_local(), 0);
    timestamp.signed_duration_since(now).num_seconds()
}

/// The internal state of the simulated device.
#[derive(Debug, Clone)]
pub struct DeviceState {
    pub cell_id: u32,
    pub channel_id: u32,
    pub controller_name: String,
    pub supplier_code: String,
    pub current_pset_id: Option<u32>,
    pub current_pset_name: Option<String>,
    pub current_pset_last_change: String,
    pub tightening_tracker: TighteningTracker,
    pub tool_enabled: bool,
    pub tool_direction: ToolDirection,
    pub tool_start_switch_active: bool,
    pub vehicle_id: Option<String>,
    pub current_job_id: Option<u32>,
    pub multi_spindle_config: MultiSpindleConfig,
    /// Recent multi-spindle results, oldest first, kept for MID 0100 replay.
    pub multi_spindle_result_history: VecDeque<MultiSpindleResultRecord>,
    /// Offset of the controller clock (set by MID 0082) from the local clock, in seconds.
    pub controller_time_offset_seconds: i64,
}

/// The last `limit` elements of `s`, or all of them when there are fewer.
pub open spec fn keep_last<T>(s: Seq<T>, limit: nat) -> Seq<T> {
    if s.len() > limit {
        s.subrange(s.len() - limit, s.len() as int)
    } else {
        s
    }
}

/// The records of `h` whose result ID exceeds `after`, in order.
pub open spec fn records_after(h: Seq<MultiSpindleResultRecord>, after: u32) -> Seq<MultiSpindleResultRecord>
    decreases h.len(),
{
    if h.len() == 0 {
        Seq::empty()
    } else {
        let rest = records_after(h.drop_last(), after);
        if h.last().result.result_id > after {
            rest.push(h.last())
        } else {
            rest
        }
    }
}

/// The result ID of the newest record of `h`, if any.
pub open spec fn latest_result_id(h: Seq<MultiSpindleResultRecord>) -> Option<u32> {
    if h.len() > 0 {
        Some(h.last().result.result_id)
    } else {
        None
    }
}

/// True when some record of `h` has result ID `id`.
pub open spec fn has_result_id(h: Seq<MultiSpindleResultRecord>, id: u32) -> bool {
    exists|i: int| 0 <= i < h.len() && (#[trigger] h[i]).result.result_id == id
}

/// The records that a MID 0100 subscription replays: those after the
/// result `data_no_system` names when it is a nonzero ID present in the
/// history, and the whole history otherwise.
pub open spec fn replay_selection(h: Seq<MultiSpindleResultRecord>, data_no_system: Option<u32>) -> Seq<MultiSpindleResultRecord> {
    match data_no_system {
        Some(after) => if after != 0 && has_result_id(h, after) {
            records_after(h, after)
        } else {
            h
        },
        None => h,
    }
}

/// The history that `record_multi_spindle_result` leaves never holds more
/// than `MULTI_SPINDLE_HISTORY_LIMIT` records, ends with the record just
/// stored, and keeps the newest of the older records in their order.
pub proof fn recorded_history_is_bounded(h: Seq<MultiSpindleResultRecord>, record: MultiSpindleResultRecord)
    ensures
        keep_last(h.push(record), MULTI_SPINDLE_HISTORY_LIMIT as nat).len()
            <= MULTI_SPINDLE_HISTORY_LIMIT,
        keep_last(h.push(record), MULTI_SPINDLE_HISTORY_LIMIT as nat).last() == record,
        latest_result_id(keep_last(h.push(record), MULTI_SPINDLE_HISTORY_LIMIT as nat)) == Some(
            record.result.result_id,
        ),
        h.len() < MULTI_SPINDLE_HISTORY_LIMIT ==> keep_last(
            h.push(record),
            MULTI_SPINDLE_HISTORY_LIMIT as nat,
        ) == h.push(record),
{
}

/// Every record that a replay after result `after` selects is newer than
/// it, and the selection keeps the order of the history: it is `h` with the
/// older records left out.
pub proof fn replay_after_anchor_is_newer(h: Seq<MultiSpindleResultRecord>, after: u32)
    ensures
        forall|i: int|
            0 <= i < records_after(h, after).len() ==> (#[trigger] records_after(h, after)[i]).result.result_id
                > after,
        records_after(h, after) == h.filter(|r: MultiSpindleResultRecord| r.result.result_id > after),
    decreases h.len(),
{
    reveal(Seq::filter);
    if h.len() > 0 {
        replay_after_anchor_is_newer(h.drop_last(), after);
    }
}

/// The state after the controller clock is set from an offset and the text
/// of the shifted time: with text, the offset and the stamp of the last
/// parameter set change are those; without, nothing changes.
pub open spec fn controller_time_applied(
    before: DeviceState,
    offset: i64,
    text: Option<String>,
    after: DeviceState,
) -> bool {
    match text {
        Some(t) => after == (DeviceState {
            controller_time_offset_seconds: offset,
            current_pset_last_change: t,
            ..before
        }),
        None => after == before,
    }
}

/// What setting the controller clock does, whatever the clock read: it is
/// set from some offset and, when written, a protocol timestamp of at least
/// 19 characters.
pub open spec fn controller_time_set(before: DeviceState, after: DeviceState) -> bool {
    exists|offset: i64, text: Option<String>|
        #![trigger controller_time_applied(before, offset, text, after)]
        controller_time_applied(before, offset, text, after) && (text matches Some(t) ==> t@.len()
            >= 19)
}

/// The message with which an invalid spindle count is refused.
pub open spec fn invalid_spindle_count_message(spindle_count: u8) -> Seq<char> {
    "Invalid multi-spindle configuration: spindle_count must be 2-16, got "@ + decimal_chars(
        spindle_count as nat,
    )
}

/// The local time shifted by `offset_seconds` in protocol style, or empty
/// text when the shift leaves the range of representable dates.
fn timestamp_for_offset(offset_seconds: i64) -> (r: String)
    ensures
        r@.len() == 0 || r@.len() >= 19,
        offset_seconds == 0 ==> r@.len() >= 19,
{
    match local_time_text(offset_seconds, "%Y-%m-%d:%H:%M:%S") {
        Some(t) => t,
        None => String::new(),
    }
}

impl DeviceState {
    /// A device with the default identification, parameter set 1 named
    /// "Default", job 1, the tool enabled and turning clockwise, single
    /// spindle and no stored results.
    pub fn new() -> (r: Self)
        ensures
            r.cell_id == 1,
            r.channel_id == 1,
            r.controller_name@ == "OpenProtocolSimulator"@,
            r.supplier_code@ == "SIM"@,
            r.current_pset_id == Some(1u32),
            r.current_pset_name matches Some(n) && n@ == "Default"@,
            r.tightening_tracker.spec_batch_size() == 0,
            r.tightening_tracker.spec_counter() == 0,
            r.tightening_tracker.spec_last_tightening_id() == 0,
            r.tool_enabled,
            r.tool_direction == ToolDirection::Cw,
            !r.tool_start_switch_active,
            r.vehicle_id is None,
            r.current_job_id == Some(1u32),
            r.multi_spindle_config == single_spindle_config(),
            r.multi_spindle_result_history@.len() == 0,
            r.controller_time_offset_seconds == 0,
            r.current_pset_last_change@.len() >= 19,
    {
        DeviceState {
            cell_id: 1,
            channel_id: 1,
            controller_name: String::from_str("OpenProtocolSimulator"),
            supplier_code: String::from_str("SIM"),
            current_pset_id: Some(1),
            current_pset_name: Some(String::from_str("Default")),
            current_pset_last_change: timestamp_for_offset(0),
            tightening_tracker: TighteningTracker::new(),
            tool_enabled: true,
            tool_direction: ToolDirection::Cw,
            tool_start_switch_active: false,
            vehicle_id: None,
            current_job_id: Some(1),
            multi_spindle_config: MultiSpindleConfig::default(),
            multi_spindle_result_history: VecDeque::new(),
            controller_time_offset_seconds: 0,
        }
    }

    /// A device identified by `config`, otherwise as [`DeviceState::new`].
    pub fn new_from_config(config: &DeviceConfig) -> (r: Self)
        ensures
            r.cell_id == config.cell_id,
            r.channel_id == config.channel_id,
            r.controller_name@ == config.controller_name@,
            r.supplier_code@ == config.supplier_code@,
            r.current_pset_id == Some(1u32),
            r.current_pset_name matches Some(n) && n@ == "Default"@,
            r.tightening_tracker.spec_batch_size() == 0,
            r.tightening_tracker.spec_counter() == 0,
            r.tightening_tracker.spec_last_tightening_id() == 0,
            r.tool_enabled,
            r.tool_direction == ToolDirection::Cw,
            !r.tool_start_switch_active,
            r.vehicle_id is None,
            r.current_job_id == Some(1u32),
            r.multi_spindle_config == single_spindle_config(),
            r.multi_spindle_result_history@.len() == 0,
            r.controller_time_offset_seconds == 0,
            r.current_pset_last_change@.len() >= 19,
    {
        DeviceState {
            cell_id: config.cell_id,
            channel_id: config.channel_id,
            controller_name: config.controller_name.clone(),
            supplier_code: config.supplier_code.clone(),
            current_pset_id: Some(1),
            current_pset_name: Some(String::from_str("Default")),
            current_pset_last_change: timestamp_for_offset(0),
            tightening_tracker: TighteningTracker::new(),
            tool_enabled: true,
            tool_direction: ToolDirection::Cw,
            tool_start_switch_active: false,
            vehicle_id: None,
            current_job_id: Some(1),
            multi_spindle_config: MultiSpindleConfig::default(),
            multi_spindle_result_history: VecDeque::new(),
            controller_time_offset_seconds: 0,
        }
    }

    /// The current time of the controller clock, in protocol style.
    pub fn current_protocol_timestamp(&self) -> (r: String)
        ensures
            r@.len() == 0 || r@.len() >= 19,
            self.controller_time_offset_seconds == 0 ==> r@.len() >= 19,
    {
        timestamp_for_offset(self.controller_time_offset_seconds)
    }

    /// Selects parameter set `pset_id` with its name, and stamps the change
    /// with the controller time.
    pub fn set_pset(&mut self, pset_id: u32, pset_name: Option<String>)
        ensures
            final(self).current_pset_id == Some(pset_id),
            final(self).current_pset_name == pset_name,
            final(self).current_pset_last_change@.len() == 0
                || final(self).current_pset_last_change@.len() >= 19,
            *final(self) == (DeviceState {
                current_pset_id: Some(pset_id),
                current_pset_name: pset_name,
                current_pset_last_change: final(self).current_pset_last_change,
                ..*old(self)
            }),
    {
        self.current_pset_id = Some(pset_id);
        self.current_pset_name = pset_name;
        self.current_pset_last_change = self.current_protocol_timestamp();
    }

    /// Selects job `job_id`.
    pub fn set_job_id(&mut self, job_id: u32)
        ensures
            *final(self) == (DeviceState { current_job_id: Some(job_id), ..*old(self) }),
    {
        self.current_job_id = Some(job_id);
    }

    /// Starts a batch of `size` tightenings.
    pub fn set_batch_size(&mut self, size: u32)
        ensures
            final(self).tightening_tracker.spec_batch_size() == size,
            final(self).tightening_tracker.spec_counter() == 0,
            final(self).tightening_tracker.spec_last_tightening_id()
                == old(self).tightening_tracker.spec_last_tightening_id(),
            *final(self) == (DeviceState {
                tightening_tracker: final(self).tightening_tracker,
                ..*old(self)
            }),
    {
        self.tightening_tracker.enable_batch(size);
    }

    /// Counts a bolt as done without tightening it (MID 0128); returns the counter.
    pub fn increment_batch(&mut self) -> (r: u32)
        ensures
            final(self).tightening_tracker.spec_counter() == if old(
                self,
            ).tightening_tracker.spec_is_batch_mode() {
                old(self).tightening_tracker.spec_counter().saturating_add(1)
            } else {
                old(self).tightening_tracker.spec_counter()
            },
            final(self).tightening_tracker.spec_batch_size()
                == old(self).tightening_tracker.spec_batch_size(),
            final(self).tightening_tracker.spec_last_tightening_id()
                == old(self).tightening_tracker.spec_last_tightening_id(),
            r == final(self).tightening_tracker.spec_counter(),
            *final(self) == (DeviceState {
                tightening_tracker: final(self).tightening_tracker,
                ..*old(self)
            }),
    {
        self.tightening_tracker.increment_batch()
    }

    /// Resets the batch counter (MID 0020); returns whether a batch is in force.
    pub fn reset_batch(&mut self) -> (r: bool)
        ensures
            r == old(self).tightening_tracker.spec_is_batch_mode(),
            final(self).tightening_tracker.spec_counter() == if r {
                0
            } else {
                old(self).tightening_tracker.spec_counter()
            },
            final(self).tightening_tracker.spec_batch_size()
                == old(self).tightening_tracker.spec_batch_size(),
            final(self).tightening_tracker.spec_last_tightening_id()
                == old(self).tightening_tracker.spec_last_tightening_id(),
            *final(self) == (DeviceState {
                tightening_tracker: final(self).tightening_tracker,
                ..*old(self)
            }),
    {
        self.tightening_tracker.reset_batch()
    }

    /// Enables the tool.
    pub fn enable_tool(&mut self)
        ensures
            *final(self) == (DeviceState { tool_enabled: true, ..*old(self) }),
    {
        self.tool_enabled = true;
    }

    /// Disables the tool.
    pub fn disable_tool(&mut self)
        ensures
            *final(self) == (DeviceState { tool_enabled: false, ..*old(self) }),
    {
        self.tool_enabled = false;
    }

    /// Sets the tool direction; returns whether it changed.
    pub fn set_tool_direction(&mut self, direction: ToolDirection) -> (changed: bool)
        ensures
            changed == (old(self).tool_direction != direction),
            *final(self) == (DeviceState { tool_direction: direction, ..*old(self) }),
    {
        if self.tool_direction == direction {
            return false;
        }
        self.tool_direction = direction;
        true
    }

    /// Relay 22 (direction switch) is active exactly when the tool turns
    /// counter-clockwise.
    pub fn direction_ccw_relay_active(&self) -> (r: bool)
        ensures
            r == (self.tool_direction == ToolDirection::Ccw),
    {
        match self.tool_direction {
            ToolDirection::Ccw => true,
            ToolDirection::Cw => false,
        }
    }

    /// Sets the tool start switch (relay 20); returns whether it changed.
    pub fn set_tool_start_switch_active(&mut self, active: bool) -> (changed: bool)
        ensures
            changed == (old(self).tool_start_switch_active != active),
            *final(self) == (DeviceState { tool_start_switch_active: active, ..*old(self) }),
    {
        if self.tool_start_switch_active == active {
            return false;
        }
        self.tool_start_switch_active = active;
        true
    }

    /// Sets the controller clock from what it read: with the text of the
    /// shifted time, the clock keeps `offset` and the parameter set change is
    /// stamped with that text; without it the state is left as it was.
    pub fn apply_controller_time(&mut self, offset: i64, text: Option<String>)
        ensures
            controller_time_applied(*old(self), offset, text, *final(self)),
    {
        match text {
            Some(t) => {
                self.controller_time_offset_seconds = offset;
                self.current_pset_last_change = t;
            },
            None => {},
        }
    }

    /// Sets the controller clock to `timestamp` (MID 0082): the clock keeps
    /// the offset from local time, and the parameter set change is stamped
    /// with the controller time. When the shifted time cannot be written (it
    /// lies outside the dates that chrono represents) the state is left as
    /// it was.
    pub fn set_controller_time(&mut self, timestamp: chrono::NaiveDateTime)
        ensures
            controller_time_set(*old(self), *final(self)),
    {
        let offset = seconds_from_local_now(&timestamp);
        let text = local_time_text(offset, "%Y-%m-%d:%H:%M:%S");
        let ghost read = text;
        self.apply_controller_time(offset, text);
        assert(controller_time_applied(*old(self), offset, read, *self));
    }

    /// Sets the vehicle ID.
    pub fn set_vehicle_id(&mut self, vin: String)
        ensures
            *final(self) == (DeviceState { vehicle_id: Some(vin), ..*old(self) }),
    {
        self.vehicle_id = Some(vin);
    }

    /// Clears the vehicle ID.
    pub fn clear_vehicle_id(&mut self)
        ensures
            *final(self) == (DeviceState { vehicle_id: None, ..*old(self) }),
    {
        self.vehicle_id = None;
    }

    /// Enables multi-spindle mode with 2 to 16 spindles; any other count is
    /// refused with a message and leaves the state unchanged.
    pub fn enable_multi_spindle(&mut self, spindle_count: u8, sync_id: u32) -> (r: Result<(), String>)
        ensures
            r is Ok <==> 2 <= spindle_count <= 16,
            r is Ok ==> *final(self) == (DeviceState {
                multi_spindle_config: MultiSpindleConfig { enabled: true, spindle_count, sync_id },
                ..*old(self)
            }),
            r matches Err(message) ==> message@ == invalid_spindle_count_message(spindle_count)
                && *final(self) == *old(self),
    {
        let config = MultiSpindleConfig::new(spindle_count, sync_id);
        if !config.is_valid() {
            let mut message = String::from_str(
                "Invalid multi-spindle configuration: spindle_count must be 2-16, got ",
            );
            let digits = decimal_string(spindle_count as u64);
            message.append(digits.as_str());
            return Err(message);
        }
        self.multi_spindle_config = config;
        Ok(())
    }

    /// Returns to single-spindle mode.
    pub fn disable_multi_spindle(&mut self)
        ensures
            *final(self) == (DeviceState {
                multi_spindle_config: single_spindle_config(),
                ..*old(self)
            }),
    {
        self.multi_spindle_config = MultiSpindleConfig::disable();
    }

    /// Stores a multi-spindle result for replay, keeping only the newest
    /// `MULTI_SPINDLE_HISTORY_LIMIT` records.
    pub fn record_multi_spindle_result(&mut self, record: MultiSpindleResultRecord)
        ensures
            final(self).multi_spindle_result_history@ == keep_last(
                old(self).multi_spindle_result_history@.push(record),
                MULTI_SPINDLE_HISTORY_LIMIT as nat,
            ),
            *final(self) == (DeviceState {
                multi_spindle_result_history: final(self).multi_spindle_result_history,
                ..*old(self)
            }),
    {
        let ghost full = self.multi_spindle_result_history@.push(record);
        let history = &mut self.multi_spindle_result_history;
        history.push_back(record);
        while history.len() > MULTI_SPINDLE_HISTORY_LIMIT
            invariant
                history@.len() <= full.len(),
                history@.len() >= if full.len() > MULTI_SPINDLE_HISTORY_LIMIT {
                    MULTI_SPINDLE_HISTORY_LIMIT as int
                } else {
                    full.len() as int
                },
                history@ =~= full.subrange(full.len() - history@.len(), full.len() as int),
            decreases history@.len(),
        {
            history.pop_front();
        }
    }

    /// The ID of the newest stored multi-spindle result.
    pub fn latest_multi_spindle_result_id(&self) -> (r: Option<u32>)
        ensures
            r == latest_result_id(self.multi_spindle_result_history@),
    {
        let n = self.multi_spindle_result_history.len();
        if n == 0 {
            None
        } else {
            Some(self.multi_spindle_result_history[n - 1].result_id())
        }
    }

    /// Copies of the stored results that a MID 0100 subscription replays:
    /// the results after `data_no_system` when it names a stored result,
    /// all stored results otherwise.
    pub fn replay_multi_spindle_results(&self, data_no_system: Option<u32>) -> (r: Vec<MultiSpindleResultRecord>)
        ensures
            r@.len() == replay_selection(self.multi_spindle_result_history@, data_no_system).len(),
            forall|i: int| 0 <= i < r@.len() ==> (#[trigger] r@[i])@ == replay_selection(
                self.multi_spindle_result_history@,
                data_no_system,
            )[i]@,
    {
        let h = &self.multi_spindle_result_history;
        let n = h.len();
        let after: u32 = match data_no_system {
            Some(v) => v,
            None => 0,
        };
        let mut found = false;
        if after != 0 {
            let mut k: usize = 0;
            while k < n
                invariant
                    k <= n,
                    n == h@.len(),
                    !found ==> forall|j: int| 0 <= j < k ==> (#[trigger] h@[j]).result.result_id != after,
                    found ==> has_result_id(h@, after),
                decreases n - k,
            {
                if h[k].result_id() == after {
                    found = true;
                }
                k = k + 1;
            }
        }
        let ghost selection = replay_selection(h@, data_no_system);
        let mut out: Vec<MultiSpindleResultRecord> = Vec::new();
        if !found {
            assert(selection == h@);
            let mut k: usize = 0;
            while k < n
                invariant
                    k <= n,
                    n == h@.len(),
                    selection == h@,
                    out@.len() == k,
                    forall|i: int| 0 <= i < k ==> (#[trigger] out@[i])@ == selection[i]@,
                decreases n - k,
            {
                out.push(h[k].duplicate());
                k = k + 1;
            }
        } else {
            assert(selection == records_after(h@, after));
            let mut k: usize = 0;
            while k < n
                invariant
                    k <= n,
                    n == h@.len(),
                    selection == records_after(h@, after),
                    out@.len() == records_after(h@.take(k as int), after).len(),
                    forall|i: int| 0 <= i < out@.len() ==> (#[trigger] out@[i])@ == records_after(
                        h@.take(k as int),
                        after,
                    )[i]@,
                decreases n - k,
            {
                assert(h@.take(k + 1).drop_last() =~= h@.take(k as int));
                assert(h@.take(k + 1).last() == h@[k as int]);
                if h[k].result_id() > after {
                    out.push(h[k].duplicate());
                }
                k = k + 1;
            }
            assert(h@.take(n as int) =~= h@);
        }
        out
    }

    /// Whether multi-spindle mode is enabled.
    pub fn is_multi_spindle_enabled(&self) -> (r: bool)
        ensures
            r == self.multi_spindle_config.enabled,
    {
        self.multi_spindle_config.enabled
    }

    /// The multi-spindle configuration.
    pub fn get_multi_spindle_config(&self) -> (r: &MultiSpindleConfig)
        ensures
            *r == self.multi_spindle_config,
    {
        &self.multi_spindle_config
    }
}

impl Default for DeviceState {
    fn default() -> (r: Self)
        ensures
            r.cell_id == 1,
            r.current_pset_id == Some(1u32),
            r.current_job_id == Some(1u32),
            r.tool_enabled,
            r.multi_spindle_result_history@.len() == 0,
    {
        Self::new()
    }
}

} // verus!
