use open_protocol_device_simulator::config::DeviceConfig;
use open_protocol_device_simulator::multi_spindle::{
    MultiSpindleResult, MultiSpindleResultRecord, SpindleResult,
};
use open_protocol_device_simulator::state::{DeviceState, ToolDirection, MULTI_SPINDLE_HISTORY_LIMIT};
use open_protocol_device_simulator::tightening_tracker::TighteningTracker;

fn record(result_id: u32) -> MultiSpindleResultRecord {
    MultiSpindleResultRecord {
        result: MultiSpindleResult::new(
            result_id,
            100,
            vec![SpindleResult::ok(1, 5000, 1800), SpindleResult::ok(2, 5000, 1800)],
        ),
        vin_number: "VIN".to_string(),
        job_id: 1,
        pset_id: 1,
        batch_size: 0,
        batch_counter: result_id,
        batch_status: 2,
        torque_min: 4500,
        torque_max: 5500,
        torque_target: 5000,
        angle_min: 170,
        angle_max: 190,
        angle_target: 180,
        last_change_timestamp: "2026-01-01:00:00:00".to_string(),
    }
}

#[test]
fn test_device_state_creation() {
    let state = DeviceState::new();
    assert_eq!(state.cell_id, 1);
    assert!(state.tool_enabled);
    assert_eq!(state.tightening_tracker.counter(), 0);
}

#[test]
fn test_tightening_tracker() {
    let mut state = DeviceState::new();
    let info = state.tightening_tracker.add_tightening(true);
    assert_eq!(info.counter, 0);

    state.set_batch_size(2);
    let info = state.tightening_tracker.add_tightening(true);
    assert_eq!(info.counter, 1);
}

#[test]
fn test_tool_state() {
    let mut state = DeviceState::new();
    state.disable_tool();
    assert!(!state.tool_enabled);
    state.enable_tool();
    assert!(state.tool_enabled);
    assert_eq!(state.tool_direction, ToolDirection::Cw);
}

#[test]
fn test_tool_direction_state() {
    let mut state = DeviceState::new();
    assert!(!state.direction_ccw_relay_active());

    assert!(state.set_tool_direction(ToolDirection::Ccw));
    assert_eq!(state.tool_direction, ToolDirection::Ccw);
    assert!(state.direction_ccw_relay_active());
    assert!(!state.set_tool_direction(ToolDirection::Ccw));
}

#[test]
fn test_multi_spindle_result_history_replay() {
    let mut state = DeviceState::new();
    for result_id in 1..=3 {
        state.record_multi_spindle_result(record(result_id));
    }

    let replay = state.replay_multi_spindle_results(Some(2));
    assert_eq!(replay.len(), 1);
    assert_eq!(replay[0].result_id(), 3);

    let missing_anchor_replay = state.replay_multi_spindle_results(Some(99));
    assert_eq!(missing_anchor_replay.len(), 3);
}

#[test]
fn replay_of_zero_or_none_returns_everything() {
    let mut state = DeviceState::new();
    for result_id in [5, 2, 9] {
        state.record_multi_spindle_result(record(result_id));
    }
    let ids = |v: Vec<MultiSpindleResultRecord>| v.iter().map(|r| r.result_id()).collect::<Vec<u32>>();
    assert_eq!(ids(state.replay_multi_spindle_results(None)), vec![5, 2, 9]);
    assert_eq!(ids(state.replay_multi_spindle_results(Some(0))), vec![5, 2, 9]);
    assert_eq!(ids(state.replay_multi_spindle_results(Some(2))), vec![5, 9]);
    assert_eq!(ids(state.replay_multi_spindle_results(Some(5))), vec![9]);
}

#[test]
fn history_keeps_the_newest_hundred() {
    let mut state = DeviceState::new();
    assert_eq!(state.latest_multi_spindle_result_id(), None);
    for result_id in 1..=105 {
        state.record_multi_spindle_result(record(result_id));
    }
    assert_eq!(state.multi_spindle_result_history.len(), MULTI_SPINDLE_HISTORY_LIMIT);
    assert_eq!(state.multi_spindle_result_history[0].result_id(), 6);
    assert_eq!(state.latest_multi_spindle_result_id(), Some(105));
}

#[test]
fn multi_spindle_mode_switches() {
    let mut state = DeviceState::new();
    assert!(!state.is_multi_spindle_enabled());
    assert_eq!(
        state.enable_multi_spindle(1, 7),
        Err("Invalid multi-spindle configuration: spindle_count must be 2-16, got 1".to_string())
    );
    assert!(!state.is_multi_spindle_enabled());
    assert_eq!(state.enable_multi_spindle(4, 7), Ok(()));
    assert!(state.is_multi_spindle_enabled());
    assert_eq!(state.get_multi_spindle_config().spindle_count, 4);
    state.disable_multi_spindle();
    assert!(!state.is_multi_spindle_enabled());
    assert_eq!(state.get_multi_spindle_config().spindle_count, 1);
}

#[test]
fn batch_lifecycle_on_state() {
    let mut state = DeviceState::new();
    assert!(!state.reset_batch());
    state.set_batch_size(3);
    assert_eq!(state.tightening_tracker.batch_size(), 3);
    assert_eq!(state.tightening_tracker.counter(), 0);
    assert!(!state.tightening_tracker.is_complete());
    for step in 1..=3 {
        assert_eq!(state.increment_batch(), step);
    }
    assert!(state.tightening_tracker.is_complete());
    assert!(state.reset_batch());
    assert_eq!(state.tightening_tracker.counter(), 0);
}

#[test]
fn tracker_counts_only_ok_tightenings_in_batch_mode() {
    let mut tracker = TighteningTracker::new();
    assert!(!tracker.is_batch_mode());
    let info = tracker.add_tightening(true);
    assert_eq!((info.tightening_id, info.counter, info.batch_complete), (1, 0, false));
    tracker.enable_batch(2);
    assert_eq!(tracker.add_tightening(false).counter, 0);
    assert_eq!(tracker.add_tightening(true).counter, 1);
    let info = tracker.add_tightening(true);
    assert_eq!((info.tightening_id, info.counter, info.batch_complete), (4, 2, true));
    assert!(tracker.should_wait_for_config());
}

#[test]
fn vehicle_job_and_pset_setters() {
    let mut state = DeviceState::new();
    state.set_vehicle_id("VIN1".to_string());
    assert_eq!(state.vehicle_id, Some("VIN1".to_string()));
    state.clear_vehicle_id();
    assert_eq!(state.vehicle_id, None);
    state.set_job_id(12);
    assert_eq!(state.current_job_id, Some(12));
    state.set_pset(5, Some("Test".to_string()));
    assert_eq!(state.current_pset_id, Some(5));
    assert_eq!(state.current_pset_name, Some("Test".to_string()));
    assert_eq!(state.current_pset_last_change.len(), 19);
    assert!(state.set_tool_start_switch_active(true));
    assert!(!state.set_tool_start_switch_active(true));
}

#[test]
fn state_from_config_takes_identification() {
    let mut config = DeviceConfig::default();
    config.cell_id = 7;
    config.channel_id = 3;
    config.controller_name = "Bench".to_string();
    let state = DeviceState::new_from_config(&config);
    assert_eq!(state.cell_id, 7);
    assert_eq!(state.channel_id, 3);
    assert_eq!(state.controller_name, "Bench");
    assert_eq!(state.current_protocol_timestamp().len(), 19);
}
