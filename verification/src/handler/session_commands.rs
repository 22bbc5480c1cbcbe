//! Handlers for the connection itself: communication start (MID 0001), the
//! requests that are only accepted, the acknowledgements of push messages,
//! and keep-alive (MID 9999).

use crate::handler::data::CommandAccepted;
use crate::handler::{accepted_response, empty_ack_response, outcome_view, HandlerError, MidHandler};
use crate::protocol::field::{int_field, str_field, FieldBuilder};
use crate::protocol::{Message, MessageView, Response, ResponseView};
use crate::state::DeviceState;
use vstd::prelude::*;

verus! {

/// The MID 0002 data section: parameter 01, the cell ID in four digits;
/// parameter 02, the channel ID in two; parameter 03, the controller name
/// in 25 characters.
pub open spec fn communication_start_wire(state: DeviceState) -> Seq<u8> {
    int_field(Some(1), state.cell_id as i32 as int, 4) + int_field(
        Some(2),
        state.channel_id as i32 as int,
        2,
    ) + str_field(Some(3), state.controller_name@, 25)
}

/// MID 0001 is answered with MID 0002 (revision 1), which identifies the
/// controller; the state is left alone.
pub open spec fn communication_start_outcome(
    message: MessageView,
    before: DeviceState,
    after: DeviceState,
    outcome: Result<ResponseView, HandlerError>,
) -> bool {
    &&& outcome == Ok::<ResponseView, HandlerError>(
        ResponseView { mid: 2, revision: 1, data: communication_start_wire(before) },
    )
    &&& after == before
}

/// MID 0001: communication start.
pub struct CommunicationStartHandler;

impl MidHandler for CommunicationStartHandler {
    fn handle(&self, message: &Message, state: &mut DeviceState) -> (r: Result<Response, HandlerError>)
        ensures
            communication_start_outcome(message@, *old(state), *final(state), outcome_view(r)),
    {
        #[verifier::truncate]
        let cell_id = state.cell_id as i32;
        #[verifier::truncate]
        let channel_id = state.channel_id as i32;
        let data = FieldBuilder::new().add_int(Some(1), cell_id, 4).add_int(Some(2), channel_id, 2).add_str(
            Some(3),
            state.controller_name.as_str(),
            25,
        ).build();
        assert(data@ =~= communication_start_wire(*state));
        Ok(Response::new(2, 1, data))
    }
}

/// A request that is only accepted (MID 0005 naming it) and leaves the
/// state alone; the subscriptions it asks for are recorded by the
/// connection.
pub open spec fn accept_outcome(
    message: MessageView,
    before: DeviceState,
    after: DeviceState,
    outcome: Result<ResponseView, HandlerError>,
) -> bool {
    &&& outcome == Ok::<ResponseView, HandlerError>(accepted_response(message.mid, message.revision))
    &&& after == before
}

/// Accepts the request: communication stop (MID 0003) and the subscribe
/// and unsubscribe requests (MIDs 0014, 0017, 0051, 0054, 0060, 0063, 0090,
/// 0092, 0103).
pub struct AcceptHandler;

impl MidHandler for AcceptHandler {
    fn handle(&self, message: &Message, state: &mut DeviceState) -> (r: Result<Response, HandlerError>)
        ensures
            accept_outcome(message@, *old(state), *final(state), outcome_view(r)),
    {
        Ok(Response::from_data(5, message.revision, CommandAccepted::with_mid(message.mid)))
    }
}

/// An acknowledgement gets the empty MID 0005 that the connection does not
/// send, and leaves the state alone.
pub open spec fn acknowledge_outcome(
    message: MessageView,
    before: DeviceState,
    after: DeviceState,
    outcome: Result<ResponseView, HandlerError>,
) -> bool {
    outcome == Ok::<ResponseView, HandlerError>(empty_ack_response()) && after == before
}

/// The acknowledgements of push messages: vehicle ID (MID 0053), tightening
/// result (MID 0062), multi-spindle status (MID 0093) and multi-spindle
/// result (MID 0102).
pub struct AcknowledgeHandler;

impl MidHandler for AcknowledgeHandler {
    fn handle(&self, message: &Message, state: &mut DeviceState) -> (r: Result<Response, HandlerError>)
        ensures
            acknowledge_outcome(message@, *old(state), *final(state), outcome_view(r)),
    {
        Ok(Response::new(5, 1, Vec::new()))
    }
}

/// MID 9999 is mirrored back: the same MID, revision and data.
pub open spec fn keep_alive_outcome(
    message: MessageView,
    before: DeviceState,
    after: DeviceState,
    outcome: Result<ResponseView, HandlerError>,
) -> bool {
    &&& outcome == Ok::<ResponseView, HandlerError>(
        ResponseView { mid: 9999, revision: message.revision, data: message.data },
    )
    &&& after == before
}

/// MID 9999: keep-alive.
pub struct KeepAliveHandler;

impl MidHandler for KeepAliveHandler {
    fn handle(&self, message: &Message, state: &mut DeviceState) -> (r: Result<Response, HandlerError>)
        ensures
            keep_alive_outcome(message@, *old(state), *final(state), outcome_view(r)),
    {
        Ok(Response::new(9999, message.revision, message.data.clone()))
    }
}

} // verus!
