//! MID 0216 - Relay function subscribe.

use crate::handler::data::CommandAccepted;
use crate::handler::{accepted_response, outcome_view, HandlerError, MidHandler};
use crate::protocol::text::{decimal_field_value, parse_decimal_field};
use crate::protocol::{Message, MessageView, Response, ResponseView};
use crate::state::DeviceState;
use vstd::prelude::*;

verus! {

/// The relay that a MID 0216 request names: its data, as trimmed UTF-8
/// text, is a `u16` in decimal, and only relays 20 (tool start switch) and
/// 22 (direction switch CCW) can be subscribed to.
pub open spec fn relay_request(data: Seq<u8>) -> Result<u16, HandlerError> {
    match decimal_field_value(data, true, u16::MAX as int) {
        Some(v) => if v == 20 || v == 22 {
            Ok(v as u16)
        } else {
            Err(HandlerError::InvalidData(216))
        },
        None => Err(HandlerError::InvalidData(216)),
    }
}

/// MID 0216 accepts a request for relay 20 or 22 and refuses any other as
/// invalid data; the state is left alone either way.
pub open spec fn relay_function_subscribe_outcome(
    message: MessageView,
    before: DeviceState,
    after: DeviceState,
    outcome: Result<ResponseView, HandlerError>,
) -> bool {
    &&& outcome == match relay_request(message.data) {
        Ok(_) => Ok::<ResponseView, HandlerError>(accepted_response(216, message.revision)),
        Err(e) => Err(e),
    }
    &&& after == before
}

/// Reads the relay number of a MID 0216 request.
pub fn parse_relay_function(message: &Message) -> (r: Result<u16, HandlerError>)
    ensures
        r == relay_request(message.data@),
{
    match parse_decimal_field(message.data.as_slice(), true, 65535) {
        Some(v) => {
            if v == 20 || v == 22 {
                Ok(v as u16)
            } else {
                Err(HandlerError::InvalidData(216))
            }
        },
        None => Err(HandlerError::InvalidData(216)),
    }
}

/// MID 0216: subscribes to a relay function.
pub struct RelayFunctionSubscribeHandler;

impl MidHandler for RelayFunctionSubscribeHandler {
    fn handle(&self, message: &Message, state: &mut DeviceState) -> (r: Result<Response, HandlerError>)
        ensures
            relay_function_subscribe_outcome(message@, *old(state), *final(state), outcome_view(r)),
    {
        match parse_relay_function(message) {
            Ok(_) => Ok(Response::from_data(5, message.revision, CommandAccepted::with_mid(216))),
            Err(e) => Err(e),
        }
    }
}

} // verus!
