use open_protocol_device_simulator::connection::{
    announcement, apply_session_side_effects, handle_frame, is_ack_only, Announcement, multi_spindle_result_push, pset_push,
    failure_action, replay_multi_spindle_results, tightening_push, vehicle_id_push, Connection,
    FailureAction, FrameOutcome, LiveResultPush,
    UnencodableVin,
};
use open_protocol_device_simulator::handler::data::TighteningResult;
use open_protocol_device_simulator::handler::{create_default_registry, HandlerError};
use open_protocol_device_simulator::multi_spindle::{
    MultiSpindleResult, MultiSpindleResultRecord, SpindleResult,
};
use open_protocol_device_simulator::protocol::parser::ProtocolError;
use open_protocol_device_simulator::protocol::serializer::serialize_response;
use open_protocol_device_simulator::protocol::{Message, Response};
use open_protocol_device_simulator::session::ConnectionSession;
use open_protocol_device_simulator::state::DeviceState;

fn connection() -> Connection {
    Connection::new(ConnectionSession::new().connect("10.0.0.1:4545".to_string()).authenticate())
}

fn frame(mid: u16, revision: u8, data: &[u8]) -> Vec<u8> {
    serialize_response(&Response::new(mid, revision, data.to_vec()))
}

fn record(result_id: u32, vin: &str) -> MultiSpindleResultRecord {
    MultiSpindleResultRecord {
        result: MultiSpindleResult::new_at(
            result_id,
            100,
            vec![SpindleResult::ok(1, 5000, 1800)],
            "2026-01-01 00:00:00".to_string(),
        ),
        vin_number: vin.to_string(),
        job_id: 1,
        pset_id: 1,
        batch_size: 0,
        batch_counter: 0,
        batch_status: 2,
        torque_min: 4500,
        torque_max: 5500,
        torque_target: 5000,
        angle_min: 170,
        angle_max: 190,
        angle_target: 180,
        last_change_timestamp: "2026-01-01:00:00:00".to_string(),
    }
}

fn message(mid: u16, revision: u8, data: &[u8]) -> Message {
    Message { length: 20 + data.len() as u16, mid, revision, data: data.to_vec() }
}

#[test]
fn unparsable_frame_gets_nothing_back() {
    let registry = create_default_registry();
    let mut conn = connection();
    let mut state = DeviceState::new();
    match handle_frame(&registry, &mut conn, &mut state, b"garbage") {
        Ok(FrameOutcome::Unparsable(e)) => assert_eq!(e, ProtocolError::TooShort),
        _ => panic!("expected an unparsable frame"),
    }
}

#[test]
fn job_select_frame_is_accepted() {
    let registry = create_default_registry();
    let mut conn = connection();
    let mut state = DeviceState::new();
    match handle_frame(&registry, &mut conn, &mut state, &frame(38, 1, b"07")) {
        Ok(FrameOutcome::Answered { message, response, replies }) => {
            assert_eq!(message.mid, 38);
            assert_eq!(response.mid, 5);
            assert_eq!(replies.len(), 1);
            assert_eq!(replies[0].data, b"0038".to_vec());
        },
        _ => panic!("expected an answer"),
    }
    assert_eq!(state.current_job_id, Some(7));
}

#[test]
fn refused_frame_gets_mid_4() {
    let registry = create_default_registry();
    let mut conn = connection();
    let mut state = DeviceState::new();
    match handle_frame(&registry, &mut conn, &mut state, &frame(60, 4, b"")) {
        Ok(FrameOutcome::Refused { error, reply, .. }) => {
            assert_eq!(error, HandlerError::RevisionUnsupported { mid: 60, revision: 4 });
            assert_eq!((reply.mid, reply.revision), (4, 4));
            assert_eq!(reply.data, b"006097".to_vec());
        },
        _ => panic!("expected a refusal"),
    }
    assert!(!conn.session.subscriptions().is_subscribed_to_tightening_result());
}

#[test]
fn acknowledgement_gets_no_reply() {
    let registry = create_default_registry();
    let mut conn = connection();
    let mut state = DeviceState::new();
    assert!(is_ack_only(16) && is_ack_only(218) && !is_ack_only(38));
    match handle_frame(&registry, &mut conn, &mut state, &frame(16, 1, b"")) {
        Ok(FrameOutcome::Answered { response, replies, .. }) => {
            assert_eq!(response.mid, 5);
            assert!(replies.is_empty());
        },
        _ => panic!("expected an answer"),
    }
}

#[test]
fn subscribe_frame_replays_stored_results() {
    let registry = create_default_registry();
    let mut conn = connection();
    let mut state = DeviceState::new();
    for id in 1..=3 {
        state.record_multi_spindle_result(record(id, "VIN"));
    }
    match handle_frame(&registry, &mut conn, &mut state, &frame(100, 2, b"0000000001")) {
        Ok(FrameOutcome::Answered { replies, .. }) => {
            assert_eq!(replies.len(), 3);
            assert_eq!(replies[0].mid, 5);
            assert_eq!(replies[1].mid, 101);
            assert_eq!(replies[1].revision, 2);
            assert!(String::from_utf8_lossy(&replies[1].data).contains("1600002"));
            assert!(String::from_utf8_lossy(&replies[2].data).contains("1600003"));
        },
        _ => panic!("expected an answer"),
    }
    let subscription = conn.multi_spindle_result.unwrap();
    assert_eq!(subscription.data_no_system, Some(1));
    assert_eq!(subscription.latest_result_id, Some(3));
    assert_eq!(conn.session.subscriptions().multi_spindle_result_revision(), Some(2));
}

#[test]
fn new_data_only_subscription_replays_nothing() {
    let registry = create_default_registry();
    let mut conn = connection();
    let mut state = DeviceState::new();
    state.record_multi_spindle_result(record(1, "VIN"));
    match handle_frame(&registry, &mut conn, &mut state, &frame(100, 3, b"00000000001")) {
        Ok(FrameOutcome::Answered { replies, .. }) => assert_eq!(replies.len(), 1),
        _ => panic!("expected an answer"),
    }
}

#[test]
fn replay_refuses_a_vin_that_cannot_be_cut() {
    let mut conn = connection();
    let mut state = DeviceState::new();
    state.record_multi_spindle_result(record(4, "ABCDEFGHIJKLMNOPQRSTUVWXéYZ"));
    apply_session_side_effects(&mut conn, &message(100, 1, b""), &state);
    assert_eq!(
        replay_multi_spindle_results(&conn, &state).err(),
        Some(UnencodableVin { result_id: 4 })
    );
}

#[test]
fn side_effects_follow_the_mid() {
    let mut conn = connection();
    let state = DeviceState::new();
    apply_session_side_effects(&mut conn, &message(60, 2, b""), &state);
    apply_session_side_effects(&mut conn, &message(14, 1, b""), &state);
    apply_session_side_effects(&mut conn, &message(51, 1, b""), &state);
    apply_session_side_effects(&mut conn, &message(90, 1, b""), &state);
    assert_eq!(conn.session.subscriptions().active_count(), 4);
    assert_eq!(conn.session.subscriptions().tightening_result_revision(), Some(2));
    apply_session_side_effects(&mut conn, &message(63, 1, b""), &state);
    apply_session_side_effects(&mut conn, &message(17, 1, b""), &state);
    apply_session_side_effects(&mut conn, &message(54, 1, b""), &state);
    apply_session_side_effects(&mut conn, &message(92, 1, b""), &state);
    apply_session_side_effects(&mut conn, &message(38, 1, b"07"), &state);
    assert_eq!(conn.session.subscriptions().active_count(), 0);
    apply_session_side_effects(&mut conn, &message(100, 1, b""), &state);
    assert!(conn.multi_spindle_result.is_some());
    apply_session_side_effects(&mut conn, &message(103, 1, b""), &state);
    assert!(conn.multi_spindle_result.is_none());
    assert!(!conn.session.subscriptions().is_subscribed_to_multi_spindle_result());
}

#[test]
fn tightening_push_uses_the_subscribed_revision() {
    let mut conn = connection();
    let result = TighteningResult::example();
    assert!(tightening_push(&conn, &result).is_none());
    conn.session.subscribe_tightening_result(2);
    let push = tightening_push(&conn, &result).unwrap();
    assert_eq!((push.mid, push.revision), (61, 2));
    assert_eq!(push.data, result.serialize_for_revision(2));
}

#[test]
fn pset_push_carries_the_last_change() {
    let mut conn = connection();
    let mut state = DeviceState::new();
    state.current_pset_last_change = "2026-03-16:13:34:11".to_string();
    assert!(pset_push(&conn, &state, 5).is_none());
    conn.session.subscribe_pset_selection();
    let push = pset_push(&conn, &state, 5).unwrap();
    assert_eq!((push.mid, push.revision), (15, 1));
    assert_eq!(push.data, b"0052026-03-16:13:34:11".to_vec());
}

#[test]
fn live_result_push_follows_the_subscription() {
    let mut conn = connection();
    let mut state = DeviceState::new();
    state.record_multi_spindle_result(record(1, "VIN"));
    assert!(matches!(multi_spindle_result_push(&conn, &state, 1), Ok(LiveResultPush::NotSent)));
    apply_session_side_effects(&mut conn, &message(100, 1, b""), &state);
    assert!(matches!(multi_spindle_result_push(&conn, &state, 1), Ok(LiveResultPush::NotSent)));
    assert!(matches!(multi_spindle_result_push(&conn, &state, 2), Ok(LiveResultPush::Missing)));
    state.record_multi_spindle_result(record(2, "VIN"));
    match multi_spindle_result_push(&conn, &state, 2) {
        Ok(LiveResultPush::Send(push)) => {
            assert_eq!(push.mid, 101);
            assert!(String::from_utf8_lossy(&push.data).contains("1600002"));
        },
        _ => panic!("expected a push"),
    }
    state.record_multi_spindle_result(record(3, "ABCDEFGHIJKLMNOPQRSTUVWXéYZ"));
    assert_eq!(
        multi_spindle_result_push(&conn, &state, 3).err(),
        Some(UnencodableVin { result_id: 3 })
    );
}

#[test]
fn pset_subscription_is_followed_by_mid_15() {
    let registry = create_default_registry();
    let mut conn = connection();
    let mut state = DeviceState::new();
    state.current_pset_last_change = "2026-03-16:13:34:11".to_string();
    match handle_frame(&registry, &mut conn, &mut state, &frame(14, 1, b"")) {
        Ok(FrameOutcome::Answered { replies, .. }) => {
            assert_eq!(replies.len(), 2);
            assert_eq!((replies[0].mid, replies[0].data.clone()), (5, b"0014".to_vec()));
            assert_eq!((replies[1].mid, replies[1].revision), (15, 1));
            assert_eq!(replies[1].data, b"0012026-03-16:13:34:11".to_vec());
        },
        _ => panic!("expected an answer"),
    }
    assert!(conn.session.subscriptions().is_subscribed_to_pset_selection());
}

#[test]
fn keep_alive_frame_is_mirrored() {
    let registry = create_default_registry();
    let mut conn = connection();
    let mut state = DeviceState::new();
    match handle_frame(&registry, &mut conn, &mut state, &frame(9999, 1, b"")) {
        Ok(FrameOutcome::Answered { replies, .. }) => {
            assert_eq!(replies.len(), 1);
            assert_eq!(replies[0].mid, 9999);
        },
        _ => panic!("expected an answer"),
    }
}

#[test]
fn announcements_follow_the_handled_mid() {
    let mut state = DeviceState::new();
    state.set_pset(7, None);
    match announcement(18, true, &state) {
        Some(Announcement::PsetChanged { pset_id, pset_name }) => {
            assert_eq!((pset_id, pset_name.as_str()), (7, "Unknown"))
        },
        _ => panic!("expected a parameter set announcement"),
    }
    assert!(matches!(announcement(42, true, &state), Some(Announcement::ToolStateChanged { enabled: false })));
    assert!(announcement(42, false, &state).is_none());
    assert!(matches!(announcement(43, false, &state), Some(Announcement::ToolStateChanged { enabled: true })));
    state.set_vehicle_id("VIN9".to_string());
    match announcement(50, true, &state) {
        Some(Announcement::VehicleIdChanged { vin }) => assert_eq!(vin, "VIN9"),
        _ => panic!("expected a vehicle ID announcement"),
    }
    assert!(announcement(38, true, &state).is_none());
}

#[test]
fn vehicle_id_subscription_is_followed_by_mid_52() {
    let registry = create_default_registry();
    let mut conn = connection();
    let mut state = DeviceState::new();
    state.set_vehicle_id("VIN42".to_string());
    match handle_frame(&registry, &mut conn, &mut state, &frame(51, 1, b"")) {
        Ok(FrameOutcome::Answered { replies, .. }) => {
            assert_eq!(replies.len(), 2);
            assert_eq!(replies[0].mid, 5);
            assert_eq!((replies[1].mid, replies[1].revision), (52, 1));
            assert_eq!(replies[1].data, format!("{:<25}", "VIN42").into_bytes());
        },
        _ => panic!("expected an answer"),
    }
    assert!(conn.session.subscriptions().is_subscribed_to_vehicle_id());
}

#[test]
fn vehicle_id_push_needs_a_subscription() {
    let mut conn = connection();
    let vin = "ABC".to_string();
    assert!(vehicle_id_push(&conn, &vin).is_none());
    conn.session.subscribe_vehicle_id();
    let push = vehicle_id_push(&conn, &vin).unwrap();
    assert_eq!((push.mid, push.revision), (52, 1));
    assert_eq!(push.data, format!("{:<25}", "ABC").into_bytes());
}

#[test]
fn failure_action_order() {
    assert!(matches!(failure_action(false, true, true, true), FailureAction::Send));
    assert!(matches!(failure_action(true, true, true, true), FailureAction::Disconnect));
    assert!(matches!(failure_action(true, false, true, true), FailureAction::Drop));
    assert!(matches!(failure_action(true, false, false, true), FailureAction::SendCorrupted));
    assert!(matches!(failure_action(true, false, false, false), FailureAction::Send));
}
