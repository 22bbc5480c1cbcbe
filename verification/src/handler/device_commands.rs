//! Handlers that change the device: parameter set selection (MID 0018),
//! batch size, reset and increment (MIDs 0019, 0020, 0128), tool disable
//! and enable (MIDs 0042, 0043) and vehicle ID download (MID 0050).

use crate::handler::data::CommandAccepted;
use crate::handler::{accepted_response, outcome_view, HandlerError, MidHandler};
use crate::protocol::parser::{all_digit_bytes, digit_bytes_value, is_digit_byte, read_digits};
use crate::protocol::text::utf8_text;
use crate::protocol::{Message, MessageView, Response, ResponseView};
use crate::state::DeviceState;
use vstd::prelude::*;
use vstd::utf8::*;

verus! {

/// The parameter set that a MID 0018 request selects: exactly three digits.
pub open spec fn pset_request(data: Seq<u8>) -> Result<u32, HandlerError> {
    if data.len() == 3 && all_digit_bytes(data) {
        Ok(digit_bytes_value(data) as u32)
    } else {
        Err(HandlerError::InvalidData(18))
    }
}

/// MID 0018 selects the parameter set (without a name, its change stamped
/// with the controller time) and is answered with MID 0016; a malformed
/// request is invalid data and leaves the state alone.
pub open spec fn pset_select_outcome(
    message: MessageView,
    before: DeviceState,
    after: DeviceState,
    outcome: Result<ResponseView, HandlerError>,
) -> bool {
    match pset_request(message.data) {
        Ok(pset_id) => {
            &&& outcome == Ok::<ResponseView, HandlerError>(
                ResponseView { mid: 16, revision: 1, data: Seq::empty() },
            )
            &&& after == (DeviceState {
                current_pset_id: Some(pset_id),
                current_pset_name: None,
                current_pset_last_change: after.current_pset_last_change,
                ..before
            })
            &&& (after.current_pset_last_change@.len() == 0
                || after.current_pset_last_change@.len() >= 19)
        },
        Err(e) => outcome == Err::<ResponseView, HandlerError>(e) && after == before,
    }
}

/// MID 0018: selects a parameter set.
pub struct PsetSelectHandler;

impl MidHandler for PsetSelectHandler {
    fn handle(&self, message: &Message, state: &mut DeviceState) -> (r: Result<Response, HandlerError>)
        ensures
            pset_select_outcome(message@, *old(state), *final(state), outcome_view(r)),
    {
        if message.data.len() != 3 {
            return Err(HandlerError::InvalidData(18));
        }
        assert(message.data@.subrange(0, 3) =~= message.data@);
        match read_digits(message.data.as_slice(), 0, 3) {
            Some(pset_id) => {
                state.set_pset(pset_id as u32, None);
                Ok(Response::new(16, 1, Vec::new()))
            },
            None => Err(HandlerError::InvalidData(18)),
        }
    }
}

/// The batch size that a MID 0019 request sets: the data is all digits,
/// the parameter set ID in three and the batch size in the one to four
/// that follow.
pub open spec fn batch_size_request(data: Seq<u8>) -> Result<u32, HandlerError> {
    if 4 <= data.len() <= 7 && all_digit_bytes(data) {
        Ok(digit_bytes_value(data.subrange(3, data.len() as int)) as u32)
    } else {
        Err(HandlerError::InvalidData(19))
    }
}

/// MID 0019 starts a batch of the requested size and is accepted; a
/// malformed request is invalid data and leaves the state alone.
pub open spec fn batch_size_outcome(
    message: MessageView,
    before: DeviceState,
    after: DeviceState,
    outcome: Result<ResponseView, HandlerError>,
) -> bool {
    match batch_size_request(message.data) {
        Ok(size) => {
            &&& outcome == Ok::<ResponseView, HandlerError>(accepted_response(19, message.revision))
            &&& after.tightening_tracker.spec_batch_size() == size
            &&& after.tightening_tracker.spec_counter() == 0
            &&& after.tightening_tracker.spec_last_tightening_id()
                == before.tightening_tracker.spec_last_tightening_id()
            &&& after == (DeviceState { tightening_tracker: after.tightening_tracker, ..before })
        },
        Err(e) => outcome == Err::<ResponseView, HandlerError>(e) && after == before,
    }
}

/// MID 0019: sets the batch size.
pub struct BatchSizeHandler;

impl MidHandler for BatchSizeHandler {
    fn handle(&self, message: &Message, state: &mut DeviceState) -> (r: Result<Response, HandlerError>)
        ensures
            batch_size_outcome(message@, *old(state), *final(state), outcome_view(r)),
    {
        let n = message.data.len();
        if n < 4 || n > 7 {
            return Err(HandlerError::InvalidData(19));
        }
        let ghost data = message.data@;
        let pset = read_digits(message.data.as_slice(), 0, 3);
        let size = read_digits(message.data.as_slice(), 3, n - 3);
        proof {
            assert(data.subrange(3, n as int) == data.subrange(3, 3 + (n - 3)));
            if all_digit_bytes(data) {
                assert(all_digit_bytes(data.subrange(0, 3)));
                assert(all_digit_bytes(data.subrange(3, n as int)));
            }
            if all_digit_bytes(data.subrange(0, 3)) && all_digit_bytes(data.subrange(3, n as int)) {
                assert forall|i: int| 0 <= i < data.len() implies is_digit_byte(#[trigger] data[i]) by {
                    if i < 3 {
                        assert(data[i] == data.subrange(0, 3)[i]);
                    } else {
                        assert(data[i] == data.subrange(3, n as int)[i - 3]);
                    }
                }
            }
        }
        match (pset, size) {
            (Some(_), Some(size)) => {
                state.set_batch_size(size as u32);
                Ok(Response::from_data(5, message.revision, CommandAccepted::with_mid(19)))
            },
            _ => Err(HandlerError::InvalidData(19)),
        }
    }
}

/// MID 0020 sets the batch counter back to 0 when a batch is in force and
/// is accepted either way.
pub open spec fn batch_reset_outcome(
    message: MessageView,
    before: DeviceState,
    after: DeviceState,
    outcome: Result<ResponseView, HandlerError>,
) -> bool {
    &&& outcome == Ok::<ResponseView, HandlerError>(accepted_response(20, message.revision))
    &&& after.tightening_tracker.spec_counter() == if before.tightening_tracker.spec_is_batch_mode() {
        0
    } else {
        before.tightening_tracker.spec_counter()
    }
    &&& after.tightening_tracker.spec_batch_size() == before.tightening_tracker.spec_batch_size()
    &&& after.tightening_tracker.spec_last_tightening_id()
        == before.tightening_tracker.spec_last_tightening_id()
    &&& after == (DeviceState { tightening_tracker: after.tightening_tracker, ..before })
}

/// MID 0020: resets the batch counter.
pub struct BatchResetHandler;

impl MidHandler for BatchResetHandler {
    fn handle(&self, message: &Message, state: &mut DeviceState) -> (r: Result<Response, HandlerError>)
        ensures
            batch_reset_outcome(message@, *old(state), *final(state), outcome_view(r)),
    {
        let _ = state.reset_batch();
        Ok(Response::from_data(5, message.revision, CommandAccepted::with_mid(20)))
    }
}

/// MID 0128 counts one more bolt of the batch when a batch is in force and
/// is accepted either way.
pub open spec fn batch_increment_outcome(
    message: MessageView,
    before: DeviceState,
    after: DeviceState,
    outcome: Result<ResponseView, HandlerError>,
) -> bool {
    &&& outcome == Ok::<ResponseView, HandlerError>(accepted_response(128, message.revision))
    &&& after.tightening_tracker.spec_counter() == if before.tightening_tracker.spec_is_batch_mode() {
        before.tightening_tracker.spec_counter().saturating_add(1)
    } else {
        before.tightening_tracker.spec_counter()
    }
    &&& after.tightening_tracker.spec_batch_size() == before.tightening_tracker.spec_batch_size()
    &&& after.tightening_tracker.spec_last_tightening_id()
        == before.tightening_tracker.spec_last_tightening_id()
    &&& after == (DeviceState { tightening_tracker: after.tightening_tracker, ..before })
}

/// MID 0128: increments the batch counter.
pub struct BatchIncrementHandler;

impl MidHandler for BatchIncrementHandler {
    fn handle(&self, message: &Message, state: &mut DeviceState) -> (r: Result<Response, HandlerError>)
        ensures
            batch_increment_outcome(message@, *old(state), *final(state), outcome_view(r)),
    {
        let _ = state.increment_batch();
        Ok(Response::from_data(5, message.revision, CommandAccepted::with_mid(128)))
    }
}

/// MIDs 0042 and 0043 set whether the tool is enabled and are accepted.
pub open spec fn tool_outcome(
    message: MessageView,
    enabled: bool,
    before: DeviceState,
    after: DeviceState,
    outcome: Result<ResponseView, HandlerError>,
) -> bool {
    &&& outcome == Ok::<ResponseView, HandlerError>(
        accepted_response(if enabled { 43u16 } else { 42u16 }, message.revision),
    )
    &&& after == (DeviceState { tool_enabled: enabled, ..before })
}

/// MID 0042: disables the tool.
pub struct ToolDisableHandler;

impl MidHandler for ToolDisableHandler {
    fn handle(&self, message: &Message, state: &mut DeviceState) -> (r: Result<Response, HandlerError>)
        ensures
            tool_outcome(message@, false, *old(state), *final(state), outcome_view(r)),
    {
        state.disable_tool();
        Ok(Response::from_data(5, message.revision, CommandAccepted::with_mid(42)))
    }
}

/// MID 0043: enables the tool.
pub struct ToolEnableHandler;

impl MidHandler for ToolEnableHandler {
    fn handle(&self, message: &Message, state: &mut DeviceState) -> (r: Result<Response, HandlerError>)
        ensures
            tool_outcome(message@, true, *old(state), *final(state), outcome_view(r)),
    {
        state.enable_tool();
        Ok(Response::from_data(5, message.revision, CommandAccepted::with_mid(43)))
    }
}

/// MID 0050 stores its data, read as UTF-8 text, as the vehicle ID and is
/// accepted; data that is not UTF-8 is invalid and leaves the state alone.
pub open spec fn vehicle_id_download_outcome(
    message: MessageView,
    before: DeviceState,
    after: DeviceState,
    outcome: Result<ResponseView, HandlerError>,
) -> bool {
    if valid_utf8(message.data) {
        &&& outcome == Ok::<ResponseView, HandlerError>(accepted_response(50, message.revision))
        &&& after.vehicle_id matches Some(vin) && vin@ == decode_utf8(message.data)
        &&& after == (DeviceState { vehicle_id: after.vehicle_id, ..before })
    } else {
        outcome == Err::<ResponseView, HandlerError>(HandlerError::InvalidData(50)) && after == before
    }
}

/// MID 0050: downloads a vehicle ID.
pub struct VehicleIdDownloadHandler;

impl MidHandler for VehicleIdDownloadHandler {
    fn handle(&self, message: &Message, state: &mut DeviceState) -> (r: Result<Response, HandlerError>)
        ensures
            vehicle_id_download_outcome(message@, *old(state), *final(state), outcome_view(r)),
    {
        match utf8_text(message.data.as_slice()) {
            Some(text) => {
                state.set_vehicle_id(String::from_str(text));
                Ok(Response::from_data(5, message.revision, CommandAccepted::with_mid(50)))
            },
            None => Err(HandlerError::InvalidData(50)),
        }
    }
}

} // verus!
