//! MID 0218 - Relay function acknowledge.

use crate::handler::{empty_ack_response, outcome_view, HandlerError, MidHandler};
use crate::protocol::{Message, MessageView, Response, ResponseView};
use crate::state::DeviceState;
use vstd::prelude::*;

verus! {

/// MID 0218 answers with the empty acknowledgement and leaves the state alone.
pub open spec fn relay_function_ack_outcome(
    message: MessageView,
    before: DeviceState,
    after: DeviceState,
    outcome: Result<ResponseView, HandlerError>,
) -> bool {
    outcome == Ok::<_, HandlerError>(empty_ack_response()) && after == before
}

/// MID 0218: the integrator acknowledges a MID 0217 relay push. The empty
/// MID 0005 it produces is dropped by the connection loop.
pub struct RelayFunctionAckHandler;

impl MidHandler for RelayFunctionAckHandler {
    fn handle(&self, message: &Message, state: &mut DeviceState) -> (r: Result<Response, HandlerError>)
        ensures
            relay_function_ack_outcome(message@, *old(state), *final(state), outcome_view(r)),
    {
        Ok(Response::new(5, 1, Vec::new()))
    }
}

} // verus!
