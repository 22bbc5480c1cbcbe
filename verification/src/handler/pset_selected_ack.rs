//! MID 0016 - Parameter set selected acknowledge.

use crate::handler::{empty_ack_response, outcome_view, HandlerError, MidHandler};
use crate::protocol::{Message, MessageView, Response, ResponseView};
use crate::state::DeviceState;
use vstd::prelude::*;

verus! {

/// MID 0016 answers with the empty acknowledgement and leaves the state alone.
pub open spec fn pset_selected_ack_outcome(
    message: MessageView,
    before: DeviceState,
    after: DeviceState,
    outcome: Result<ResponseView, HandlerError>,
) -> bool {
    outcome == Ok::<_, HandlerError>(empty_ack_response()) && after == before
}

/// MID 0016: the integrator acknowledges a MID 0015. No reply goes on the
/// wire for an acknowledgement; the handler answers with an empty MID 0005
/// that the connection loop drops.
pub struct PsetSelectedAckHandler;

impl MidHandler for PsetSelectedAckHandler {
    fn handle(&self, message: &Message, state: &mut DeviceState) -> (r: Result<Response, HandlerError>)
        ensures
            pset_selected_ack_outcome(message@, *old(state), *final(state), outcome_view(r)),
    {
        Ok(Response::new(5, 1, Vec::new()))
    }
}

} // verus!
