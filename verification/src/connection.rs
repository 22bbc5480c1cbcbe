//! The decisions of one client connection: what goes back for each
//! received frame, how a handled request changes the connection's
//! subscriptions, and which push messages a simulator event produces.

use crate::handler::data::multi_spindle_result_broadcast::{record_wire, vin_encodable, vin_fits};
use crate::handler::data::pset_selected::PsetSelected;
use crate::handler::data::tightening_result::{tightening_wire, TighteningResult};
use crate::handler::data::MultiSpindleResultBroadcast;
use crate::handler::data::vehicle_id_broadcast::{vehicle_id_wire, VehicleIdBroadcast};
use crate::protocol::ResponseData;
use crate::handler::error_data;
use crate::handler::data::error_response::error_wire;
use crate::handler::{routed, HandlerError, HandlerRegistry, RegisteredHandler};
use crate::handler::multi_spindle_result_subscribe::{
    into_subscription, parse_subscribe_request, subscribe_request,
};
use crate::multi_spindle::MultiSpindleResultRecord;
use crate::protocol::parser::{parse_message, parsed_frame, ProtocolError};
use crate::protocol::{Message, MessageView, Response, ResponseView};
use crate::session::{ConnectionSession, Ready};
use crate::state::{latest_result_id, replay_selection, DeviceState};
use crate::subscriptions::{MultiSpindleResultSubscription, Subscriptions};
use vstd::prelude::*;

verus! {

/// What a connection keeps between messages: its session and, once a
/// MID 0100 request has been accepted, the parameters of its multi-spindle
/// result subscription.
pub struct Connection {
    pub session: ConnectionSession<Ready>,
    pub multi_spindle_result: Option<MultiSpindleResultSubscription>,
}

/// The revision that the session records for multi-spindle results is the
/// revision of the subscription that the connection holds.
pub open spec fn connection_wf(c: Connection) -> bool {
    c.session.phase().subscriptions.multi_spindle_result == match c.multi_spindle_result {
        Some(s) => Some(s.revision),
        None => None::<u8>,
    }
}

/// The subscriptions after a handled request with `mid` and `revision`:
/// MIDs 0060, 0014, 0051, 0090 and 0100 subscribe, MIDs 0063, 0017, 0054,
/// 0092 and 0103 unsubscribe, any other MID changes nothing.
pub open spec fn subscriptions_after(s: Subscriptions, mid: u16, revision: u8) -> Subscriptions {
    if mid == 60 {
        Subscriptions { tightening_result: Some(revision), ..s }
    } else if mid == 63 {
        Subscriptions { tightening_result: None, ..s }
    } else if mid == 14 {
        Subscriptions { pset_selection: true, ..s }
    } else if mid == 17 {
        Subscriptions { pset_selection: false, ..s }
    } else if mid == 51 {
        Subscriptions { vehicle_id: true, ..s }
    } else if mid == 54 {
        Subscriptions { vehicle_id: false, ..s }
    } else if mid == 90 {
        Subscriptions { multi_spindle_status: true, ..s }
    } else if mid == 92 {
        Subscriptions { multi_spindle_status: false, ..s }
    } else if mid == 100 {
        Subscriptions { multi_spindle_result: Some(revision), ..s }
    } else if mid == 103 {
        Subscriptions { multi_spindle_result: None, ..s }
    } else {
        s
    }
}

/// The multi-spindle result subscription after a handled request: MID 0100
/// records its parameters with the newest stored result, MID 0103 drops it.
pub open spec fn subscription_after(
    current: Option<MultiSpindleResultSubscription>,
    message: MessageView,
    history: Seq<MultiSpindleResultRecord>,
) -> Option<MultiSpindleResultSubscription> {
    if message.mid == 100 {
        match subscribe_request(message.mid, message.revision, message.data) {
            Ok(request) => Some(
                MultiSpindleResultSubscription {
                    revision: message.revision,
                    data_no_system: request.data_no_system,
                    send_only_new_data: request.send_only_new_data,
                    latest_result_id: latest_result_id(history),
                },
            ),
            Err(_) => current,
        }
    } else if message.mid == 103 {
        None
    } else {
        current
    }
}

/// The stored results that a subscription replays: none without a
/// subscription or when it asks for new data only, otherwise the replay
/// selection of its data number.
pub open spec fn replay_records(
    subscription: Option<MultiSpindleResultSubscription>,
    history: Seq<MultiSpindleResultRecord>,
) -> Seq<MultiSpindleResultRecord> {
    match subscription {
        Some(s) => if s.send_only_new_data {
            Seq::empty()
        } else {
            replay_selection(history, s.data_no_system)
        },
        None => Seq::empty(),
    }
}

/// The MID 0101 message that carries `record` to a subscriber at `revision`.
pub open spec fn result_message(revision: u8, record: MultiSpindleResultRecord) -> ResponseView {
    ResponseView { mid: 101, revision, data: record_wire(record@) }
}

/// True when every record of `records` has a VIN that MID 0101 can carry.
pub open spec fn all_vins_fit(records: Seq<MultiSpindleResultRecord>) -> bool {
    forall|i: int| 0 <= i < records.len() ==> vin_encodable((#[trigger] records[i]).vin_number@)
}

/// A stored result whose VIN cannot be sent: cutting it after 25 bytes
/// would split a character.
#[derive(Debug, Clone, Copy, PartialEq, Eq)]
pub struct UnencodableVin {
    /// The ID of that result.
    pub result_id: u32,
}

impl Connection {
    /// A connection for a ready session, with no multi-spindle result
    /// subscription.
    pub fn new(session: ConnectionSession<Ready>) -> (r: Self)
        ensures
            r.session.phase() == (Ready {
                subscriptions: Subscriptions {
                    multi_spindle_result: None,
                    ..session.phase().subscriptions
                },
                ..session.phase()
            }),
            r.multi_spindle_result is None,
            connection_wf(r),
    {
        let mut session = session;
        session.unsubscribe_multi_spindle_result();
        Connection { session, multi_spindle_result: None }
    }
}

/// Records in the connection what a handled request subscribes to or
/// unsubscribes from.
pub fn apply_session_side_effects(conn: &mut Connection, message: &Message, state: &DeviceState)
    requires
        message.mid == 100 ==> subscribe_request(message.mid, message.revision, message.data@) is Ok,
    ensures
        final(conn).session.phase() == (Ready {
            subscriptions: subscriptions_after(
                old(conn).session.phase().subscriptions,
                message.mid,
                message.revision,
            ),
            ..old(conn).session.phase()
        }),
        final(conn).multi_spindle_result == subscription_after(
            old(conn).multi_spindle_result,
            message@,
            state.multi_spindle_result_history@,
        ),
        connection_wf(*old(conn)) ==> connection_wf(*final(conn)),
{
    let session = &mut conn.session;
    match message.mid {
        60 => session.subscribe_tightening_result(message.revision),
        63 => session.unsubscribe_tightening_result(),
        14 => session.subscribe_pset_selection(),
        17 => session.unsubscribe_pset_selection(),
        51 => session.subscribe_vehicle_id(),
        54 => session.unsubscribe_vehicle_id(),
        90 => session.subscribe_multi_spindle_status(),
        92 => session.unsubscribe_multi_spindle_status(),
        100 => {
            match parse_subscribe_request(message) {
                Ok(request) => {
                    let latest = state.latest_multi_spindle_result_id();
                    let subscription = into_subscription(message.revision, request, latest);
                    session.subscribe_multi_spindle_result(message.revision);
                    conn.multi_spindle_result = Some(subscription);
                },
                Err(_) => {},
            }
        },
        103 => {
            session.unsubscribe_multi_spindle_result();
            conn.multi_spindle_result = None;
        },
        _ => {},
    }
}

/// The MID 0101 messages that replay the stored results to a new
/// subscriber, oldest first; refused when one of them has a VIN that
/// cannot be sent.
pub fn replay_multi_spindle_results(conn: &Connection, state: &DeviceState) -> (r: Result<
    Vec<Response>,
    UnencodableVin,
>)
    ensures
        r is Ok <==> all_vins_fit(
            replay_records(conn.multi_spindle_result, state.multi_spindle_result_history@),
        ),
        r matches Ok(messages) ==> {
            let records = replay_records(conn.multi_spindle_result, state.multi_spindle_result_history@);
            &&& messages@.len() == records.len()
            &&& forall|i: int|
                0 <= i < records.len() ==> (#[trigger] messages@[i])@ == result_message(
                    conn.multi_spindle_result->0.revision,
                    records[i],
                )
        },
        r matches Err(e) ==> exists|i: int|
            0 <= i < replay_records(conn.multi_spindle_result, state.multi_spindle_result_history@).len()
                && !vin_encodable(
                (#[trigger] replay_records(
                    conn.multi_spindle_result,
                    state.multi_spindle_result_history@,
                )[i]).vin_number@,
            ) && replay_records(conn.multi_spindle_result, state.multi_spindle_result_history@)[i].result.result_id
                == e.result_id,
{
    let ghost records = replay_records(conn.multi_spindle_result, state.multi_spindle_result_history@);
    let subscription = match conn.multi_spindle_result {
        Some(s) => s,
        None => {
            return Ok(Vec::new());
        },
    };
    if subscription.send_only_new_data {
        return Ok(Vec::new());
    }
    let stored = state.replay_multi_spindle_results(subscription.data_no_system);
    let mut messages: Vec<Response> = Vec::new();
    let mut k: usize = 0;
    while k < stored.len()
        invariant
            k <= stored@.len(),
            stored@.len() == records.len(),
            forall|i: int| 0 <= i < stored@.len() ==> (#[trigger] stored@[i])@ == records[i]@,
            records == replay_selection(state.multi_spindle_result_history@, subscription.data_no_system),
            conn.multi_spindle_result == Some(subscription),
            records == replay_records(conn.multi_spindle_result, state.multi_spindle_result_history@),
            messages@.len() == k,
            forall|i: int| 0 <= i < k ==> vin_encodable((#[trigger] records[i]).vin_number@),
            forall|i: int|
                0 <= i < k ==> (#[trigger] messages@[i])@ == result_message(subscription.revision, records[i]),
        decreases stored@.len() - k,
    {
        let record = &stored[k];
        assert(record@ == records[k as int]@);
        if !vin_fits(record.vin_number.as_str()) {
            assert(!vin_encodable(records[k as int].vin_number@));
            assert(!all_vins_fit(records));
            return Err(UnencodableVin { result_id: record.result_id() });
        }
        let broadcast = MultiSpindleResultBroadcast::from_record(record);
        messages.push(Response::from_data(101, subscription.revision, broadcast));
        k = k + 1;
    }
    Ok(messages)
}

/// The acknowledgement MIDs (0016, 0053, 0062, 0093, 0102 and 0218): the
/// integrator confirms a push message, and nothing goes back.
pub open spec fn is_ack_mid(mid: u16) -> bool {
    mid == 16 || mid == 53 || mid == 62 || mid == 93 || mid == 102 || mid == 218
}

/// Whether `mid` is an acknowledgement MID, whose response is not sent.
pub fn is_ack_only(mid: u16) -> (r: bool)
    ensures
        r == is_ack_mid(mid),
{
    mid == 16 || mid == 53 || mid == 62 || mid == 93 || mid == 102 || mid == 218
}

/// The registry routes MID 0100, if at all, to the multi-spindle result
/// subscription handler, whose acceptance the connection relies on.
pub open spec fn routes_subscriptions(handlers: Map<u16, RegisteredHandler>) -> bool {
    handlers.contains_key(100u16) ==> handlers[100u16] is MultiSpindleResultSubscribe
}

/// The MID 0101 messages that replay stored results to `subscription`.
pub open spec fn replay_messages(
    subscription: Option<MultiSpindleResultSubscription>,
    history: Seq<MultiSpindleResultRecord>,
) -> Seq<ResponseView> {
    replay_records(subscription, history).map_values(
        |record: MultiSpindleResultRecord| result_message(subscription->0.revision, record),
    )
}

/// The values of `responses`.
pub open spec fn response_views(responses: Seq<Response>) -> Seq<ResponseView> {
    responses.map_values(|response: Response| response@)
}

/// The parameter set in force, 0 when none is selected.
pub open spec fn active_pset_id(state: DeviceState) -> u32 {
    match state.current_pset_id {
        Some(p) => p,
        None => 0,
    }
}

/// The MID 0015 that tells a new subscriber which parameter set is active
/// and when it last changed.
pub open spec fn pset_selected_message(state: DeviceState) -> ResponseView {
    ResponseView {
        mid: 15,
        revision: 1,
        data: (PsetSelected {
            pset_id: active_pset_id(state),
            last_change_timestamp: state.current_pset_last_change,
        }).wire(),
    }
}

/// A change of the device that a handled request makes and that every
/// connection hears of.
pub enum Announcement {
    /// A parameter set was selected; its name, or "Unknown".
    PsetChanged { pset_id: u32, pset_name: String },
    /// The tool was enabled or disabled.
    ToolStateChanged { enabled: bool },
    /// A vehicle ID was downloaded.
    VehicleIdChanged { vin: String },
}

/// The name announced for the selected parameter set.
pub open spec fn announced_pset_name(state: DeviceState) -> Seq<char> {
    match state.current_pset_name {
        Some(n) => n@,
        None => "Unknown"@,
    }
}

/// The announcement due after a request with `mid` was handled, given
/// whether the tool was enabled before and the state after: MID 0018
/// announces the selected parameter set, MIDs 0042 and 0043 a change of the
/// tool state (only when it changed), MID 0050 the vehicle ID; other MIDs
/// announce nothing.
pub fn announcement(mid: u16, tool_was_enabled: bool, state: &DeviceState) -> (r: Option<Announcement>)
    ensures
        mid == 18 ==> (r matches Some(Announcement::PsetChanged { pset_id, pset_name })
            && pset_id == active_pset_id(*state) && pset_name@ == announced_pset_name(*state)),
        mid == 42 ==> if tool_was_enabled {
            r matches Some(Announcement::ToolStateChanged { enabled }) && !enabled
        } else {
            r is None
        },
        mid == 43 ==> if !tool_was_enabled {
            r matches Some(Announcement::ToolStateChanged { enabled }) && enabled
        } else {
            r is None
        },
        mid == 50 ==> match state.vehicle_id {
            Some(v) => r matches Some(Announcement::VehicleIdChanged { vin }) && vin@ == v@,
            None => r is None,
        },
        mid != 18 && mid != 42 && mid != 43 && mid != 50 ==> r is None,
{
    if mid == 18 {
        let pset_id = match state.current_pset_id {
            Some(p) => p,
            None => 0,
        };
        let pset_name = match &state.current_pset_name {
            Some(n) => n.clone(),
            None => String::from_str("Unknown"),
        };
        Some(Announcement::PsetChanged { pset_id, pset_name })
    } else if mid == 42 {
        if tool_was_enabled {
            Some(Announcement::ToolStateChanged { enabled: false })
        } else {
            None
        }
    } else if mid == 43 {
        if !tool_was_enabled {
            Some(Announcement::ToolStateChanged { enabled: true })
        } else {
            None
        }
    } else if mid == 50 {
        match &state.vehicle_id {
            Some(v) => Some(Announcement::VehicleIdChanged { vin: v.clone() }),
            None => None,
        }
    } else {
        None
    }
}

/// The vehicle ID the device holds, empty when none was downloaded.
pub open spec fn current_vin(state: DeviceState) -> Seq<char> {
    match state.vehicle_id {
        Some(v) => v@,
        None => Seq::empty(),
    }
}

/// The MID 0052 that carries `vin` to a subscriber.
pub open spec fn vehicle_id_message(vin: Seq<char>) -> ResponseView {
    ResponseView { mid: 52, revision: 1, data: vehicle_id_wire(vin) }
}

/// What a received frame leads to.
pub enum FrameOutcome {
    /// The frame is not a message; nothing goes back.
    Unparsable(ProtocolError),
    /// The request was handled with `response`; `replies` go back, in order.
    Answered { message: Message, response: Response, replies: Vec<Response> },
    /// The request was refused; `reply` (MID 0004) goes back.
    Refused { message: Message, error: HandlerError, reply: Response },
}

/// What handling the message `m` of a frame does, given the registry's
/// handlers: the device state and the connection before and after, and the
/// outcome. A handled request is answered with its response (unless it is
/// an acknowledgement), its subscription changes are recorded, an accepted
/// MID 0100 is followed by the replay of stored results, and an accepted
/// MID 0014 by a MID 0015 with the active parameter set, and an accepted
/// MID 0051 by a MID 0052 with the current vehicle ID; a refused
/// request is answered with MID 0004 and changes no subscription.
pub open spec fn frame_handled(
    handlers: Map<u16, RegisteredHandler>,
    m: MessageView,
    before: DeviceState,
    after: DeviceState,
    conn_before: Connection,
    conn_after: Connection,
    r: Result<FrameOutcome, UnencodableVin>,
) -> bool {
    let subscriptions = subscriptions_after(conn_before.session.phase().subscriptions, m.mid, m.revision);
    let subscription = subscription_after(
        conn_before.multi_spindle_result,
        m,
        after.multi_spindle_result_history@,
    );
    match r {
        Ok(FrameOutcome::Unparsable(_)) => false,
        Ok(FrameOutcome::Answered { message, response, replies }) => {
            &&& message@ == m
            &&& routed(handlers, m, before, after, Ok(response@))
            &&& conn_after.session.phase().subscriptions == subscriptions
            &&& conn_after.multi_spindle_result == subscription
            &&& m.mid == 100 ==> all_vins_fit(
                replay_records(subscription, after.multi_spindle_result_history@),
            )
            &&& response_views(replies@) == (if is_ack_mid(m.mid) {
                Seq::<ResponseView>::empty()
            } else {
                seq![response@]
            }) + (if m.mid == 100 {
                replay_messages(subscription, after.multi_spindle_result_history@)
            } else if m.mid == 14 {
                seq![pset_selected_message(after)]
            } else if m.mid == 51 {
                seq![vehicle_id_message(current_vin(after))]
            } else {
                Seq::<ResponseView>::empty()
            })
        },
        Ok(FrameOutcome::Refused { message, error, reply }) => {
            &&& message@ == m
            &&& routed(handlers, m, before, after, Err(error))
            &&& reply@ == (ResponseView {
                mid: 4,
                revision: m.revision,
                data: error_wire(error_data(error).failed_mid, error_data(error).error_code),
            })
            &&& conn_after.session.phase().subscriptions == conn_before.session.phase().subscriptions
            &&& conn_after.multi_spindle_result == conn_before.multi_spindle_result
        },
        Err(_) => {
            &&& m.mid == 100
            &&& exists|response: ResponseView| routed(handlers, m, before, after, Ok(response))
            &&& conn_after.session.phase().subscriptions == subscriptions
            &&& conn_after.multi_spindle_result == subscription
            &&& !all_vins_fit(replay_records(subscription, after.multi_spindle_result_history@))
        },
    }
}

/// Handles one received frame: records the activity, reads the message,
/// lets the registry handle it, and decides what goes back.
pub fn handle_frame(
    registry: &HandlerRegistry,
    conn: &mut Connection,
    state: &mut DeviceState,
    raw: &[u8],
) -> (r: Result<FrameOutcome, UnencodableVin>)
    requires
        routes_subscriptions(registry@),
    ensures
        final(conn).session.phase().addr == old(conn).session.phase().addr,
        final(conn).session.phase().connected_at == old(conn).session.phase().connected_at,
        connection_wf(*old(conn)) ==> connection_wf(*final(conn)),
        match parsed_frame(raw@) {
            Err(e) => {
                &&& r matches Ok(FrameOutcome::Unparsable(pe)) && pe == e
                &&& *final(state) == *old(state)
                &&& final(conn).session.phase().subscriptions == old(conn).session.phase().subscriptions
                &&& final(conn).multi_spindle_result == old(conn).multi_spindle_result
            },
            Ok((length, mid, revision, data)) => frame_handled(
                registry@,
                MessageView { length, mid, revision, data },
                *old(state),
                *final(state),
                *old(conn),
                *final(conn),
                r,
            ),
        },
{
    conn.session.update_keep_alive();
    let message = match parse_message(raw) {
        Ok(m) => m,
        Err(e) => {
            return Ok(FrameOutcome::Unparsable(e));
        },
    };
    let ghost conn_before = *conn;
    match registry.handle_message(&message, state) {
        Ok(response) => {
            apply_session_side_effects(conn, &message, state);
            let mut replies: Vec<Response> = Vec::new();
            if !is_ack_only(message.mid) {
                replies.push(response.duplicate());
            }
            assert(response_views(replies@) =~= if is_ack_mid(message.mid) {
                Seq::<ResponseView>::empty()
            } else {
                seq![response@]
            });
            if message.mid == 100 {
                match replay_multi_spindle_results(conn, state) {
                    Ok(mut replayed) => {
                        let ghost first = replies@;
                        replies.append(&mut replayed);
                        assert(response_views(replies@) =~= response_views(first) + replay_messages(
                            conn.multi_spindle_result,
                            state.multi_spindle_result_history@,
                        ));
                    },
                    Err(e) => {
                        return Err(e);
                    },
                }
            } else if message.mid == 14 {
                let pset_id = match state.current_pset_id {
                    Some(p) => p,
                    None => 0,
                };
                let data = PsetSelected::new(pset_id, state.current_pset_last_change.clone());
                let ghost first = replies@;
                replies.push(Response::from_data(15, 1, data));
                assert(response_views(replies@) =~= response_views(first) + seq![
                    pset_selected_message(*state),
                ]);
            } else if message.mid == 51 {
                let vin = match &state.vehicle_id {
                    Some(v) => v.clone(),
                    None => String::new(),
                };
                let ghost first = replies@;
                replies.push(Response::from_data(52, 1, VehicleIdBroadcast::new(vin)));
                assert(response_views(replies@) =~= response_views(first) + seq![
                    vehicle_id_message(current_vin(*state)),
                ]);
            } else {
                assert(response_views(replies@) =~= response_views(replies@) + Seq::<ResponseView>::empty());
            }
            Ok(FrameOutcome::Answered { message, response, replies })
        },
        Err(error) => {
            let reply = error.to_error_response(message.revision);
            Ok(FrameOutcome::Refused { message, error, reply })
        },
    }
}

/// The MID 0061 push for a completed tightening: sent, in the subscribed
/// revision's layout, only to a connection subscribed to tightening results.
pub fn tightening_push(conn: &Connection, result: &TighteningResult) -> (r: Option<Response>)
    ensures
        match conn.session.phase().subscriptions.tightening_result {
            Some(revision) => r matches Some(m) && m@ == (ResponseView {
                mid: 61,
                revision,
                data: tightening_wire(*result, revision),
            }),
            None => r is None,
        },
{
    match conn.session.subscriptions().tightening_result_revision() {
        Some(revision) => Some(Response::new(61, revision, result.serialize_for_revision(revision))),
        None => None,
    }
}

/// The MID 0015 push for a parameter set selection: sent only to a
/// connection subscribed to parameter set selections, with the time the
/// device records for the parameter set's last change.
pub fn pset_push(conn: &Connection, state: &DeviceState, pset_id: u32) -> (r: Option<Response>)
    ensures
        conn.session.phase().subscriptions.pset_selection ==> (r matches Some(m) && m@ == (
        ResponseView {
            mid: 15,
            revision: 1,
            data: (PsetSelected {
                pset_id,
                last_change_timestamp: state.current_pset_last_change,
            }).wire(),
        })),
        !conn.session.phase().subscriptions.pset_selection ==> r is None,
{
    if conn.session.subscriptions().is_subscribed_to_pset_selection() {
        let data = PsetSelected::new(pset_id, state.current_pset_last_change.clone());
        Some(Response::from_data(15, 1, data))
    } else {
        None
    }
}

/// The MID 0052 push for a downloaded vehicle ID: sent only to a connection
/// subscribed to vehicle IDs.
pub fn vehicle_id_push(conn: &Connection, vin: &String) -> (r: Option<Response>)
    ensures
        conn.session.phase().subscriptions.vehicle_id ==> (r matches Some(m) && m@
            == vehicle_id_message(vin@)),
        !conn.session.phase().subscriptions.vehicle_id ==> r is None,
{
    if conn.session.subscriptions().is_subscribed_to_vehicle_id() {
        Some(Response::from_data(52, 1, VehicleIdBroadcast::new(vin.clone())))
    } else {
        None
    }
}

/// What a send does under failure injection, given the simulator's draws
/// for this message.
pub enum FailureAction {
    /// The message goes out as it is.
    Send,
    /// The connection is dropped instead.
    Disconnect,
    /// The message is dropped.
    Drop,
    /// The message goes out corrupted.
    SendCorrupted,
}

/// The failure injection decision: without injection every message is
/// sent; with it a drawn disconnect comes first, then a drawn drop, then a
/// drawn corruption.
pub fn failure_action(enabled: bool, disconnect: bool, drop_packet: bool, corrupt: bool) -> (r:
    FailureAction)
    ensures
        r == if !enabled {
            FailureAction::Send
        } else if disconnect {
            FailureAction::Disconnect
        } else if drop_packet {
            FailureAction::Drop
        } else if corrupt {
            FailureAction::SendCorrupted
        } else {
            FailureAction::Send
        },
{
    if !enabled {
        FailureAction::Send
    } else if disconnect {
        FailureAction::Disconnect
    } else if drop_packet {
        FailureAction::Drop
    } else if corrupt {
        FailureAction::SendCorrupted
    } else {
        FailureAction::Send
    }
}

/// The newest record of `history` with result ID `id`, if any.
pub open spec fn latest_record_with_id(history: Seq<MultiSpindleResultRecord>, id: u32) -> Option<
    MultiSpindleResultRecord,
>
    decreases history.len(),
{
    if history.len() == 0 {
        None
    } else if history.last().result.result_id == id {
        Some(history.last())
    } else {
        latest_record_with_id(history.drop_last(), id)
    }
}

/// The position of the newest stored record with result ID `id`.
fn latest_index_with_id(state: &DeviceState, id: u32) -> (r: Option<usize>)
    ensures
        match latest_record_with_id(state.multi_spindle_result_history@, id) {
            None => r is None,
            Some(record) => r matches Some(k) && k < state.multi_spindle_result_history@.len()
                && state.multi_spindle_result_history@[k as int] == record,
        },
{
    let history = &state.multi_spindle_result_history;
    let ghost h = history@;
    let mut k: usize = history.len();
    assert(h.take(k as int) =~= h);
    while k > 0
        invariant
            k <= h.len(),
            h == history@,
            h == state.multi_spindle_result_history@,
            latest_record_with_id(h, id) == latest_record_with_id(h.take(k as int), id),
        decreases k,
    {
        assert(h.take(k as int).drop_last() =~= h.take(k - 1));
        assert(h.take(k as int).last() == h[k - 1]);
        if history[k - 1].result_id() == id {
            assert(h.take(k as int).last().result.result_id == id);
            assert(latest_record_with_id(h.take(k as int), id) == Some(h[k - 1]));
            return Some(k - 1);
        }
        k = k - 1;
    }
    assert(h.take(0) =~= Seq::<MultiSpindleResultRecord>::empty());
    None
}

/// What a completed multi-spindle result leads to on one connection.
pub enum LiveResultPush {
    /// The connection does not get this result.
    NotSent,
    /// The result is due, but no stored record has its ID.
    Missing,
    /// This MID 0101 goes to the connection.
    Send(Response),
}

/// The MID 0101 push for a completed multi-spindle result: due to a
/// subscribed connection when the subscription's live filter passes the
/// result, and built from the newest stored record with the result's ID;
/// refused when that record's VIN cannot be sent.
pub fn multi_spindle_result_push(conn: &Connection, state: &DeviceState, result_id: u32) -> (r:
    Result<LiveResultPush, UnencodableVin>)
    ensures
        match conn.multi_spindle_result {
            None => r matches Ok(LiveResultPush::NotSent),
            Some(s) => if !(match s.latest_result_id {
                Some(latest) => result_id > latest,
                None => true,
            }) {
                r matches Ok(LiveResultPush::NotSent)
            } else {
                match latest_record_with_id(state.multi_spindle_result_history@, result_id) {
                    None => r matches Ok(LiveResultPush::Missing),
                    Some(record) => if vin_encodable(record.vin_number@) {
                        r matches Ok(LiveResultPush::Send(m)) && m@ == result_message(
                            s.revision,
                            record,
                        )
                    } else {
                        r == Err::<LiveResultPush, UnencodableVin>(
                            UnencodableVin { result_id },
                        )
                    },
                }
            },
        },
{
    let subscription = match &conn.multi_spindle_result {
        Some(s) => s,
        None => {
            return Ok(LiveResultPush::NotSent);
        },
    };
    if !subscription.should_send_live_result(result_id) {
        return Ok(LiveResultPush::NotSent);
    }
    match latest_index_with_id(state, result_id) {
        Some(k) => {
            let record = &state.multi_spindle_result_history[k];
            if !vin_fits(record.vin_number.as_str()) {
                return Err(UnencodableVin { result_id });
            }
            let broadcast = MultiSpindleResultBroadcast::from_record(record);
            Ok(LiveResultPush::Send(Response::from_data(101, subscription.revision, broadcast)))
        },
        None => Ok(LiveResultPush::Missing),
    }
}

} // verus!
