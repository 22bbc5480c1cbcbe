//! MID 0214 - IO device status request.

use crate::handler::data::io_device_status::{
    io_device_status_wire, lemma_status_list_append, lemma_status_list_unused, status_entry,
    status_list,
};
use crate::handler::data::IoDeviceStatus;
use crate::handler::{outcome_view, HandlerError, MidHandler};
use crate::protocol::text::{decimal_bytes, decimal_field_value, parse_decimal_field};
use crate::protocol::{Message, MessageView, Response, ResponseView};
use crate::state::{DeviceState, ToolDirection};
use vstd::prelude::*;

verus! {

/// The device that a MID 0214 request names: its data, as trimmed UTF-8
/// text, is a `u8` in decimal, and only device 0 (the controller's own IO)
/// exists.
pub open spec fn device_request(data: Seq<u8>) -> Result<u8, HandlerError> {
    if decimal_field_value(data, true, u8::MAX as int) == Some(0int) {
        Ok(0u8)
    } else {
        Err(HandlerError::InvalidData(214))
    }
}

/// Eight unused status points.
pub open spec fn idle_points() -> Seq<(u16, bool)> {
    Seq::new(8, |i: int| (0u16, false))
}

/// The relays that MID 0215 reports: relay 20 follows the tool start
/// switch, relay 22 the counter-clockwise direction, and six slots are
/// unused.
pub open spec fn reported_relays(state: DeviceState) -> Seq<(u16, bool)> {
    seq![
        (20u16, state.tool_start_switch_active),
        (22u16, state.tool_direction == ToolDirection::Ccw),
    ] + Seq::new(6, |i: int| (0u16, false))
}

/// MID 0214 for device 0 answers with MID 0215, listing relays 20 and 22
/// with their states and unused digital inputs; a request for any other
/// device is invalid data. The state is left alone.
pub open spec fn io_device_status_request_outcome(
    message: MessageView,
    before: DeviceState,
    after: DeviceState,
    outcome: Result<ResponseView, HandlerError>,
) -> bool {
    &&& outcome == match device_request(message.data) {
        Ok(device) => Ok::<ResponseView, HandlerError>(
            ResponseView {
                mid: 215,
                revision: message.revision,
                data: io_device_status_wire(device, reported_relays(before), idle_points()),
            },
        ),
        Err(e) => Err(e),
    }
    &&& after == before
}

/// The relay list of MID 0215 is 32 bytes: relay `020` with '1' exactly when
/// the tool start switch is active, relay `022` with '1' exactly when the
/// tool turns counter-clockwise, then six unused entries `0000`.
pub proof fn reported_relay_entries(state: DeviceState)
    ensures
        status_list(reported_relays(state)).len() == 32,
        status_list(reported_relays(state)).subrange(0, 3) == seq![48u8, 50u8, 48u8],
        status_list(reported_relays(state))[3] == if state.tool_start_switch_active {
            49u8
        } else {
            48u8
        },
        status_list(reported_relays(state)).subrange(4, 7) == seq![48u8, 50u8, 50u8],
        status_list(reported_relays(state))[7] == if state.tool_direction == ToolDirection::Ccw {
            49u8
        } else {
            48u8
        },
        forall|i: int| 8 <= i < 32 ==> status_list(reported_relays(state))[i] == 48u8,
{
    let named = seq![
        (20u16, state.tool_start_switch_active),
        (22u16, state.tool_direction == ToolDirection::Ccw),
    ];
    let unused = Seq::new(6, |i: int| (0u16, false));
    lemma_status_list_append(named, unused);
    lemma_status_list_unused(6);
    assert(named.drop_last() =~= seq![(20u16, state.tool_start_switch_active)]);
    assert(named.drop_last().drop_last() =~= Seq::<(u16, bool)>::empty());
    reveal_with_fuel(decimal_bytes, 3);
    assert(decimal_bytes(20) =~= seq![50u8, 48u8]);
    assert(decimal_bytes(22) =~= seq![50u8, 50u8]);
    let first = status_entry(20, state.tool_start_switch_active);
    let second = status_entry(22, state.tool_direction == ToolDirection::Ccw);
    assert(first =~= seq![48u8, 50u8, 48u8, if state.tool_start_switch_active { 49u8 } else { 48u8 }]);
    assert(second =~= seq![48u8, 50u8, 50u8, if state.tool_direction == ToolDirection::Ccw { 49u8 } else { 48u8 }]);
    assert(named.last() == (22u16, state.tool_direction == ToolDirection::Ccw));
    assert(named.drop_last().last() == (20u16, state.tool_start_switch_active));
    assert(status_list(named.drop_last().drop_last()) =~= Seq::<u8>::empty());
    assert(status_list(named.drop_last()) =~= Seq::<u8>::empty() + first);
    assert(status_list(named) =~= first + second);
    let list = status_list(reported_relays(state));
    assert(list =~= first + second + Seq::new(24, |i: int| 48u8));
}

/// Reads the device number of a MID 0214 request.
pub fn parse_device_number(message: &Message) -> (r: Result<u8, HandlerError>)
    ensures
        r == device_request(message.data@),
{
    match parse_decimal_field(message.data.as_slice(), true, 255) {
        Some(v) => {
            if v == 0 {
                Ok(0)
            } else {
                Err(HandlerError::InvalidData(214))
            }
        },
        None => Err(HandlerError::InvalidData(214)),
    }
}

fn unused_points(count: usize) -> (r: Vec<(u16, bool)>)
    ensures
        r@ == Seq::new(count as nat, |i: int| (0u16, false)),
{
    let mut r: Vec<(u16, bool)> = Vec::new();
    let mut k: usize = 0;
    while k < count
        invariant
            k <= count,
            r@ == Seq::new(k as nat, |i: int| (0u16, false)),
        decreases count - k,
    {
        r.push((0, false));
        k = k + 1;
        assert(r@ =~= Seq::new(k as nat, |i: int| (0u16, false)));
    }
    r
}

/// MID 0214: reports the relays and digital inputs of IO device 0.
pub struct IoDeviceStatusRequestHandler;

impl IoDeviceStatusRequestHandler {
    /// The handler; the device state it works on is handed to each call.
    pub fn new() -> (r: Self) {
        IoDeviceStatusRequestHandler
    }
}

impl MidHandler for IoDeviceStatusRequestHandler {
    fn handle(&self, message: &Message, state: &mut DeviceState) -> (r: Result<Response, HandlerError>)
        ensures
            io_device_status_request_outcome(message@, *old(state), *final(state), outcome_view(r)),
    {
        let device_number = match parse_device_number(message) {
            Ok(d) => d,
            Err(e) => {
                return Err(e);
            },
        };
        let mut relays: Vec<(u16, bool)> = Vec::new();
        relays.push((20, state.tool_start_switch_active));
        relays.push((22, state.direction_ccw_relay_active()));
        let mut rest = unused_points(6);
        relays.append(&mut rest);
        let inputs = unused_points(8);
        assert(relays@ =~= reported_relays(*old(state)));
        let status = IoDeviceStatus::new(device_number, relays, inputs);
        Ok(Response::from_data(215, message.revision, status))
    }
}

} // verus!
