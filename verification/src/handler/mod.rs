//! Handlers that answer the MIDs the simulator understands, and the
//! registry that routes each request to its handler.

pub mod data;
pub mod device_commands;
pub mod io_device_status_request;
pub mod job_select;
pub mod multi_spindle_result_subscribe;
pub mod pset_selected_ack;
pub mod relay_function_ack;
pub mod relay_function_subscribe;
pub mod session_commands;
pub mod set_time;

use crate::handler::data::command_accepted::accepted_wire;
use crate::handler::data::error_response::error_wire;
use crate::handler::data::ErrorResponse;
use crate::handler::device_commands::{
    batch_increment_outcome, batch_reset_outcome, batch_size_outcome, pset_select_outcome,
    tool_outcome, vehicle_id_download_outcome, BatchIncrementHandler, BatchResetHandler,
    BatchSizeHandler, PsetSelectHandler, ToolDisableHandler, ToolEnableHandler,
    VehicleIdDownloadHandler,
};
use crate::handler::session_commands::{
    accept_outcome, acknowledge_outcome, communication_start_outcome, keep_alive_outcome,
    AcceptHandler, AcknowledgeHandler, CommunicationStartHandler, KeepAliveHandler,
};
use crate::handler::io_device_status_request::{
    io_device_status_request_outcome, IoDeviceStatusRequestHandler,
};
use crate::handler::job_select::{job_select_outcome, JobSelectHandler};
use crate::handler::multi_spindle_result_subscribe::{
    multi_spindle_result_subscribe_outcome, MultiSpindleResultSubscribeHandler,
};
use crate::handler::pset_selected_ack::{pset_selected_ack_outcome, PsetSelectedAckHandler};
use crate::handler::relay_function_ack::{relay_function_ack_outcome, RelayFunctionAckHandler};
use crate::handler::relay_function_subscribe::{
    relay_function_subscribe_outcome, RelayFunctionSubscribeHandler,
};
use crate::handler::set_time::{set_time_outcome, SetTimeHandler};
use crate::protocol::{Message, MessageView, Response, ResponseView};
use crate::state::DeviceState;
use std::collections::HashMap;
use vstd::prelude::*;

verus! {

/// Why a request could not be handled.
#[derive(Debug, Clone, PartialEq, Eq)]
pub enum HandlerError {
    /// No handler is registered for the MID.
    UnknownMid(u16),
    /// The MID is known, the revision is not.
    RevisionUnsupported { mid: u16, revision: u8 },
    /// The request's data section is unusable.
    InvalidData(u16),
    /// The handler failed while processing the request.
    Processing(String),
}

/// The MID 0004 data that reports `e`.
pub open spec fn error_data(e: HandlerError) -> ErrorResponse {
    match e {
        HandlerError::UnknownMid(mid) => ErrorResponse { failed_mid: mid, error_code: 79 },
        HandlerError::RevisionUnsupported { mid, .. } => ErrorResponse {
            failed_mid: mid,
            error_code: 97,
        },
        HandlerError::InvalidData(mid) => ErrorResponse { failed_mid: mid, error_code: 1 },
        HandlerError::Processing(_) => ErrorResponse { failed_mid: 0, error_code: 79 },
    }
}

/// The MID 0005 response accepting `accepted_mid`, in `revision`.
pub open spec fn accepted_response(accepted_mid: u16, revision: u8) -> ResponseView {
    ResponseView { mid: 5, revision, data: accepted_wire(accepted_mid) }
}

/// The empty MID 0005 response that acknowledgements produce.
pub open spec fn empty_ack_response() -> ResponseView {
    ResponseView { mid: 5, revision: 1, data: Seq::empty() }
}

/// The value of a handler's outcome.
pub open spec fn outcome_view(r: Result<Response, HandlerError>) -> Result<ResponseView, HandlerError> {
    match r {
        Ok(response) => Ok(response@),
        Err(e) => Err(e),
    }
}

impl HandlerError {
    /// The MID 0004 response that reports this error to the integrator.
    pub fn to_error_response(&self, request_revision: u8) -> (r: Response)
        ensures
            r@ == (ResponseView {
                mid: 4,
                revision: request_revision,
                data: error_wire(error_data(*self).failed_mid, error_data(*self).error_code),
            }),
    {
        let error_data = match self {
            HandlerError::UnknownMid(mid) => ErrorResponse::generic(*mid),
            HandlerError::RevisionUnsupported { mid, .. } => ErrorResponse::revision_unsupported(
                *mid,
            ),
            HandlerError::InvalidData(mid) => ErrorResponse::invalid_data(*mid),
            HandlerError::Processing(_) => ErrorResponse::generic(0),
        };
        Response::from_data(4, request_revision, error_data)
    }
}

/// The revisions the simulator supports: 1 and 2 for MID 0038, 1 to 3 for
/// MIDs 0060, 0061, 0100 and 0101, and every revision of other MIDs.
pub open spec fn revision_supported(mid: u16, revision: u8) -> bool {
    if mid == 38 {
        revision == 1 || revision == 2
    } else if mid == 60 || mid == 61 || mid == 100 || mid == 101 {
        1 <= revision <= 3
    } else {
        true
    }
}

/// Whether `revision` of `mid` is supported.
pub fn is_revision_supported(mid: u16, revision: u8) -> (r: bool)
    ensures
        r == revision_supported(mid, revision),
{
    match mid {
        38 => revision == 1 || revision == 2,
        60 | 61 | 100 | 101 => revision == 1 || revision == 2 || revision == 3,
        _ => true,
    }
}

/// A handler for one MID.
pub trait MidHandler {
    /// Processes a request against the device state and produces the response.
    fn handle(&self, message: &Message, state: &mut DeviceState) -> Result<Response, HandlerError>;
}

/// A handler that the registry can route to.
pub enum RegisteredHandler {
    PsetSelectedAck(PsetSelectedAckHandler),
    JobSelect(JobSelectHandler),
    SetTime(SetTimeHandler),
    MultiSpindleResultSubscribe(MultiSpindleResultSubscribeHandler),
    IoDeviceStatusRequest(IoDeviceStatusRequestHandler),
    RelayFunctionSubscribe(RelayFunctionSubscribeHandler),
    RelayFunctionAck(RelayFunctionAckHandler),
    CommunicationStart(CommunicationStartHandler),
    Accept(AcceptHandler),
    Acknowledge(AcknowledgeHandler),
    KeepAlive(KeepAliveHandler),
    PsetSelect(PsetSelectHandler),
    BatchSize(BatchSizeHandler),
    BatchReset(BatchResetHandler),
    BatchIncrement(BatchIncrementHandler),
    ToolDisable(ToolDisableHandler),
    ToolEnable(ToolEnableHandler),
    VehicleIdDownload(VehicleIdDownloadHandler),
}

/// What handling `message` with `handler` does: the outcome it gives and
/// how the state after relates to the state before.
pub open spec fn handled_by(
    handler: RegisteredHandler,
    message: MessageView,
    before: DeviceState,
    after: DeviceState,
    outcome: Result<ResponseView, HandlerError>,
) -> bool {
    match handler {
        RegisteredHandler::PsetSelectedAck(_) => pset_selected_ack_outcome(message, before, after, outcome),
        RegisteredHandler::JobSelect(_) => job_select_outcome(message, before, after, outcome),
        RegisteredHandler::SetTime(_) => set_time_outcome(message, before, after, outcome),
        RegisteredHandler::MultiSpindleResultSubscribe(_) => multi_spindle_result_subscribe_outcome(
            message,
            before,
            after,
            outcome,
        ),
        RegisteredHandler::IoDeviceStatusRequest(_) => io_device_status_request_outcome(
            message,
            before,
            after,
            outcome,
        ),
        RegisteredHandler::RelayFunctionSubscribe(_) => relay_function_subscribe_outcome(
            message,
            before,
            after,
            outcome,
        ),
        RegisteredHandler::RelayFunctionAck(_) => relay_function_ack_outcome(message, before, after, outcome),
        RegisteredHandler::CommunicationStart(_) => communication_start_outcome(
            message,
            before,
            after,
            outcome,
        ),
        RegisteredHandler::Accept(_) => accept_outcome(message, before, after, outcome),
        RegisteredHandler::Acknowledge(_) => acknowledge_outcome(message, before, after, outcome),
        RegisteredHandler::KeepAlive(_) => keep_alive_outcome(message, before, after, outcome),
        RegisteredHandler::PsetSelect(_) => pset_select_outcome(message, before, after, outcome),
        RegisteredHandler::BatchSize(_) => batch_size_outcome(message, before, after, outcome),
        RegisteredHandler::BatchReset(_) => batch_reset_outcome(message, before, after, outcome),
        RegisteredHandler::BatchIncrement(_) => batch_increment_outcome(message, before, after, outcome),
        RegisteredHandler::ToolDisable(_) => tool_outcome(message, false, before, after, outcome),
        RegisteredHandler::ToolEnable(_) => tool_outcome(message, true, before, after, outcome),
        RegisteredHandler::VehicleIdDownload(_) => vehicle_id_download_outcome(
            message,
            before,
            after,
            outcome,
        ),
    }
}

impl MidHandler for RegisteredHandler {
    fn handle(&self, message: &Message, state: &mut DeviceState) -> (r: Result<Response, HandlerError>)
        ensures
            handled_by(*self, message@, *old(state), *final(state), outcome_view(r)),
    {
        match self {
            RegisteredHandler::PsetSelectedAck(h) => h.handle(message, state),
            RegisteredHandler::JobSelect(h) => h.handle(message, state),
            RegisteredHandler::SetTime(h) => h.handle(message, state),
            RegisteredHandler::MultiSpindleResultSubscribe(h) => h.handle(message, state),
            RegisteredHandler::IoDeviceStatusRequest(h) => h.handle(message, state),
            RegisteredHandler::RelayFunctionSubscribe(h) => h.handle(message, state),
            RegisteredHandler::RelayFunctionAck(h) => h.handle(message, state),
            RegisteredHandler::CommunicationStart(h) => h.handle(message, state),
            RegisteredHandler::Accept(h) => h.handle(message, state),
            RegisteredHandler::Acknowledge(h) => h.handle(message, state),
            RegisteredHandler::KeepAlive(h) => h.handle(message, state),
            RegisteredHandler::PsetSelect(h) => h.handle(message, state),
            RegisteredHandler::BatchSize(h) => h.handle(message, state),
            RegisteredHandler::BatchReset(h) => h.handle(message, state),
            RegisteredHandler::BatchIncrement(h) => h.handle(message, state),
            RegisteredHandler::ToolDisable(h) => h.handle(message, state),
            RegisteredHandler::ToolEnable(h) => h.handle(message, state),
            RegisteredHandler::VehicleIdDownload(h) => h.handle(message, state),
        }
    }
}

/// What the registry does with `message`, given its handlers: a revision
/// that the MID does not support is refused first, then a MID with no
/// handler; otherwise the MID's handler decides. A refused request leaves
/// the state alone.
pub open spec fn routed(
    handlers: Map<u16, RegisteredHandler>,
    message: MessageView,
    before: DeviceState,
    after: DeviceState,
    outcome: Result<ResponseView, HandlerError>,
) -> bool {
    if !revision_supported(message.mid, message.revision) {
        &&& outcome == Err::<ResponseView, HandlerError>(
            HandlerError::RevisionUnsupported { mid: message.mid, revision: message.revision },
        )
        &&& after == before
    } else if !handlers.contains_key(message.mid) {
        outcome == Err::<ResponseView, HandlerError>(HandlerError::UnknownMid(message.mid))
            && after == before
    } else {
        handled_by(handlers[message.mid], message, before, after, outcome)
    }
}

/// A refused request leaves the device state as it was: whatever the
/// handlers, when the registry's outcome for a message is an error, the
/// state after equals the state before.
pub proof fn refused_request_changes_nothing(
    handlers: Map<u16, RegisteredHandler>,
    message: MessageView,
    before: DeviceState,
    after: DeviceState,
    error: HandlerError,
)
    requires
        routed(handlers, message, before, after, Err(error)),
    ensures
        after == before,
{
}

/// Routes each MID to its handler.
pub struct HandlerRegistry {
    handlers: HashMap<u16, RegisteredHandler>,
}

impl View for HandlerRegistry {
    type V = Map<u16, RegisteredHandler>;

    closed spec fn view(&self) -> Map<u16, RegisteredHandler> {
        self.handlers@
    }
}

impl HandlerRegistry {
    /// A registry with no handlers.
    pub fn new() -> (r: Self)
        ensures
            r@ == Map::<u16, RegisteredHandler>::empty(),
    {
        HandlerRegistry { handlers: HashMap::new() }
    }

    /// Routes `mid` to `handler`, replacing any handler it had.
    pub fn register(&mut self, mid: u16, handler: RegisteredHandler)
        ensures
            final(self)@ == old(self)@.insert(mid, handler),
    {
        broadcast use vstd::std_specs::hash::group_hash_axioms;

        self.handlers.insert(mid, handler);
    }

    /// The handler routed to `mid`, if any.
    pub fn handler(&self, mid: u16) -> (r: Option<&RegisteredHandler>)
        ensures
            r == if self@.contains_key(mid) {
                Some(&self@[mid])
            } else {
                None
            },
    {
        broadcast use vstd::std_specs::hash::group_hash_axioms;

        self.handlers.get(&mid)
    }

    /// Processes `message` with the handler of its MID.
    pub fn handle_message(&self, message: &Message, state: &mut DeviceState) -> (r: Result<
        Response,
        HandlerError,
    >)
        ensures
            routed(self@, message@, *old(state), *final(state), outcome_view(r)),
    {
        broadcast use vstd::std_specs::hash::group_hash_axioms;

        if !is_revision_supported(message.mid, message.revision) {
            return Err(
                HandlerError::RevisionUnsupported { mid: message.mid, revision: message.revision },
            );
        }
        match self.handlers.get(&message.mid) {
            Some(handler) => handler.handle(message, state),
            None => Err(HandlerError::UnknownMid(message.mid)),
        }
    }
}

impl Default for HandlerRegistry {
    fn default() -> (r: Self)
        ensures
            r@ == Map::<u16, RegisteredHandler>::empty(),
    {
        HandlerRegistry::new()
    }
}

/// The handlers of the standard registry, by MID: communication start and
/// stop, keep-alive, parameter set selection and its subscription, batch
/// size, reset and increment, job selection, tool disable and enable,
/// vehicle ID download, the subscriptions to tightening results, vehicle
/// IDs and multi-spindle status and results with their acknowledgements,
/// set time, IO device status and relay functions.
pub open spec fn default_handlers() -> Map<u16, RegisteredHandler> {
    map![
        1u16 => RegisteredHandler::CommunicationStart(CommunicationStartHandler),
        3u16 => RegisteredHandler::Accept(AcceptHandler),
        14u16 => RegisteredHandler::Accept(AcceptHandler),
        16u16 => RegisteredHandler::PsetSelectedAck(PsetSelectedAckHandler),
        17u16 => RegisteredHandler::Accept(AcceptHandler),
        18u16 => RegisteredHandler::PsetSelect(PsetSelectHandler),
        19u16 => RegisteredHandler::BatchSize(BatchSizeHandler),
        20u16 => RegisteredHandler::BatchReset(BatchResetHandler),
        38u16 => RegisteredHandler::JobSelect(JobSelectHandler),
        42u16 => RegisteredHandler::ToolDisable(ToolDisableHandler),
        43u16 => RegisteredHandler::ToolEnable(ToolEnableHandler),
        50u16 => RegisteredHandler::VehicleIdDownload(VehicleIdDownloadHandler),
        51u16 => RegisteredHandler::Accept(AcceptHandler),
        53u16 => RegisteredHandler::Acknowledge(AcknowledgeHandler),
        54u16 => RegisteredHandler::Accept(AcceptHandler),
        60u16 => RegisteredHandler::Accept(AcceptHandler),
        62u16 => RegisteredHandler::Acknowledge(AcknowledgeHandler),
        63u16 => RegisteredHandler::Accept(AcceptHandler),
        82u16 => RegisteredHandler::SetTime(SetTimeHandler),
        90u16 => RegisteredHandler::Accept(AcceptHandler),
        92u16 => RegisteredHandler::Accept(AcceptHandler),
        93u16 => RegisteredHandler::Acknowledge(AcknowledgeHandler),
        100u16 => RegisteredHandler::MultiSpindleResultSubscribe(MultiSpindleResultSubscribeHandler),
        102u16 => RegisteredHandler::Acknowledge(AcknowledgeHandler),
        103u16 => RegisteredHandler::Accept(AcceptHandler),
        128u16 => RegisteredHandler::BatchIncrement(BatchIncrementHandler),
        214u16 => RegisteredHandler::IoDeviceStatusRequest(IoDeviceStatusRequestHandler),
        216u16 => RegisteredHandler::RelayFunctionSubscribe(RelayFunctionSubscribeHandler),
        218u16 => RegisteredHandler::RelayFunctionAck(RelayFunctionAckHandler),
        9999u16 => RegisteredHandler::KeepAlive(KeepAliveHandler),
    ]
}

/// A registry with the standard handlers; every other MID is unknown.
pub fn create_default_registry() -> (r: HandlerRegistry)
    ensures
        r@ == default_handlers(),
{
    let mut registry = HandlerRegistry::new();
    registry.register(1, RegisteredHandler::CommunicationStart(CommunicationStartHandler));
    registry.register(3, RegisteredHandler::Accept(AcceptHandler));
    registry.register(14, RegisteredHandler::Accept(AcceptHandler));
    registry.register(16, RegisteredHandler::PsetSelectedAck(PsetSelectedAckHandler));
    registry.register(17, RegisteredHandler::Accept(AcceptHandler));
    registry.register(18, RegisteredHandler::PsetSelect(PsetSelectHandler));
    registry.register(19, RegisteredHandler::BatchSize(BatchSizeHandler));
    registry.register(20, RegisteredHandler::BatchReset(BatchResetHandler));
    registry.register(38, RegisteredHandler::JobSelect(JobSelectHandler));
    registry.register(42, RegisteredHandler::ToolDisable(ToolDisableHandler));
    registry.register(43, RegisteredHandler::ToolEnable(ToolEnableHandler));
    registry.register(50, RegisteredHandler::VehicleIdDownload(VehicleIdDownloadHandler));
    registry.register(51, RegisteredHandler::Accept(AcceptHandler));
    registry.register(53, RegisteredHandler::Acknowledge(AcknowledgeHandler));
    registry.register(54, RegisteredHandler::Accept(AcceptHandler));
    registry.register(60, RegisteredHandler::Accept(AcceptHandler));
    registry.register(62, RegisteredHandler::Acknowledge(AcknowledgeHandler));
    registry.register(63, RegisteredHandler::Accept(AcceptHandler));
    registry.register(82, RegisteredHandler::SetTime(SetTimeHandler));
    registry.register(90, RegisteredHandler::Accept(AcceptHandler));
    registry.register(92, RegisteredHandler::Accept(AcceptHandler));
    registry.register(93, RegisteredHandler::Acknowledge(AcknowledgeHandler));
    registry.register(100, RegisteredHandler::MultiSpindleResultSubscribe(MultiSpindleResultSubscribeHandler));
    registry.register(102, RegisteredHandler::Acknowledge(AcknowledgeHandler));
    registry.register(103, RegisteredHandler::Accept(AcceptHandler));
    registry.register(128, RegisteredHandler::BatchIncrement(BatchIncrementHandler));
    registry.register(214, RegisteredHandler::IoDeviceStatusRequest(IoDeviceStatusRequestHandler));
    registry.register(216, RegisteredHandler::RelayFunctionSubscribe(RelayFunctionSubscribeHandler));
    registry.register(218, RegisteredHandler::RelayFunctionAck(RelayFunctionAckHandler));
    registry.register(9999, RegisteredHandler::KeepAlive(KeepAliveHandler));
    registry
}

} // verus!
