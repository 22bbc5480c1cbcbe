use open_protocol_device_simulator::handler::io_device_status_request::{
    parse_device_number, IoDeviceStatusRequestHandler,
};
use open_protocol_device_simulator::handler::job_select::{parse_job_id, JobSelectHandler};
use open_protocol_device_simulator::handler::multi_spindle_result_subscribe::{
    into_subscription, parse_subscribe_request, MultiSpindleResultSubscribeHandler,
    MultiSpindleResultSubscribeRequest,
};
use open_protocol_device_simulator::handler::pset_selected_ack::PsetSelectedAckHandler;
use open_protocol_device_simulator::handler::relay_function_ack::RelayFunctionAckHandler;
use open_protocol_device_simulator::handler::relay_function_subscribe::{
    parse_relay_function, RelayFunctionSubscribeHandler,
};
use open_protocol_device_simulator::handler::set_time::SetTimeHandler;
use open_protocol_device_simulator::handler::{
    create_default_registry, is_revision_supported, HandlerError, HandlerRegistry, MidHandler,
    RegisteredHandler,
};
use open_protocol_device_simulator::protocol::Message;
use open_protocol_device_simulator::state::{DeviceState, ToolDirection};
use open_protocol_device_simulator::subscriptions::MultiSpindleResultSubscription;

fn message(mid: u16, revision: u8, data: &[u8]) -> Message {
    Message {
        length: 20 + data.len() as u16,
        mid,
        revision,
        data: data.to_vec(),
    }
}

#[test]
fn test_parse_job_id_revision_1() {
    let message = Message {
        length: 22,
        mid: 38,
        revision: 1,
        data: b"07".to_vec(),
    };

    assert_eq!(parse_job_id(&message).unwrap(), 7);
}

#[test]
fn test_parse_job_id_revision_2() {
    let message = Message {
        length: 24,
        mid: 38,
        revision: 2,
        data: b"0042".to_vec(),
    };

    assert_eq!(parse_job_id(&message).unwrap(), 42);
}

#[test]
fn test_parse_job_id_rejects_invalid_data() {
    let message = Message {
        length: 22,
        mid: 38,
        revision: 1,
        data: b"A7".to_vec(),
    };

    assert!(matches!(
        parse_job_id(&message),
        Err(HandlerError::InvalidData(38))
    ));
}

#[test]
fn parse_job_id_checks_length_and_revision() {
    assert_eq!(parse_job_id(&message(38, 1, b"007")), Err(HandlerError::InvalidData(38)));
    assert_eq!(parse_job_id(&message(38, 2, b"42")), Err(HandlerError::InvalidData(38)));
    assert_eq!(parse_job_id(&message(38, 2, b"9999")), Ok(9999));
    assert_eq!(
        parse_job_id(&message(38, 3, b"0042")),
        Err(HandlerError::RevisionUnsupported { mid: 38, revision: 3 })
    );
}

#[test]
fn test_revision_support_policy() {
    assert!(is_revision_supported(38, 1));
    assert!(is_revision_supported(38, 2));
    assert!(!is_revision_supported(38, 3));
    assert!(is_revision_supported(60, 3));
    assert!(!is_revision_supported(60, 4));
    assert!(is_revision_supported(100, 2));
    assert!(!is_revision_supported(100, 4));
    assert!(is_revision_supported(42, 9));
}

#[test]
fn test_multi_spindle_result_subscribe() {
    let handler = MultiSpindleResultSubscribeHandler;
    let message = Message {
        length: 20,
        mid: 100,
        revision: 1,
        data: vec![],
    };

    let mut state = DeviceState::new();
    let response = handler.handle(&message, &mut state).unwrap();
    assert_eq!(response.mid, 5);
}

#[test]
fn test_parse_multi_spindle_result_subscribe_revision_2() {
    let message = Message {
        length: 30,
        mid: 100,
        revision: 2,
        data: b"0000000042".to_vec(),
    };

    let request = parse_subscribe_request(&message).unwrap();
    assert_eq!(request.data_no_system, Some(42));
    assert!(!request.send_only_new_data);
}

#[test]
fn test_parse_multi_spindle_result_subscribe_revision_3() {
    let message = Message {
        length: 31,
        mid: 100,
        revision: 3,
        data: b"00000000011".to_vec(),
    };

    let request = parse_subscribe_request(&message).unwrap();
    assert_eq!(request.data_no_system, Some(1));
    assert!(request.send_only_new_data);
}

#[test]
fn test_parse_multi_spindle_result_subscribe_invalid_data() {
    let message = Message {
        length: 30,
        mid: 100,
        revision: 2,
        data: b"notdigits!".to_vec(),
    };

    assert!(matches!(
        parse_subscribe_request(&message),
        Err(HandlerError::InvalidData(100))
    ));
}

#[test]
fn parse_subscribe_request_edge_cases() {
    assert_eq!(
        parse_subscribe_request(&message(100, 1, b"")),
        Ok(MultiSpindleResultSubscribeRequest { data_no_system: None, send_only_new_data: false })
    );
    assert_eq!(parse_subscribe_request(&message(100, 1, b"0")), Err(HandlerError::InvalidData(100)));
    assert_eq!(parse_subscribe_request(&message(100, 2, b"00000042")), Err(HandlerError::InvalidData(100)));
    assert_eq!(
        parse_subscribe_request(&message(100, 2, b"+000000042")),
        Ok(MultiSpindleResultSubscribeRequest { data_no_system: Some(42), send_only_new_data: false })
    );
    assert_eq!(parse_subscribe_request(&message(100, 2, b"9999999999")), Err(HandlerError::InvalidData(100)));
    assert_eq!(
        parse_subscribe_request(&message(100, 3, b"00000000070")),
        Ok(MultiSpindleResultSubscribeRequest { data_no_system: Some(7), send_only_new_data: false })
    );
    assert_eq!(parse_subscribe_request(&message(100, 3, b"00000000072")), Err(HandlerError::InvalidData(100)));
    assert_eq!(
        parse_subscribe_request(&message(100, 4, b"")),
        Err(HandlerError::RevisionUnsupported { mid: 100, revision: 4 })
    );
}

#[test]
fn into_subscription_keeps_request_and_latest_result() {
    let request = MultiSpindleResultSubscribeRequest { data_no_system: Some(3), send_only_new_data: true };
    assert_eq!(
        into_subscription(3, request, Some(9)),
        MultiSpindleResultSubscription::new(3, Some(3), true, Some(9))
    );
}

#[test]
fn test_parse_relay_function() {
    let message = Message {
        length: 23,
        mid: 216,
        revision: 1,
        data: b"022".to_vec(),
    };
    assert_eq!(parse_relay_function(&message).unwrap(), 22);
}

#[test]
fn parse_relay_function_accepts_only_relays_20_and_22() {
    assert_eq!(parse_relay_function(&message(216, 1, b" 20 ")), Ok(20));
    assert_eq!(parse_relay_function(&message(216, 1, b"021")), Err(HandlerError::InvalidData(216)));
    assert_eq!(parse_relay_function(&message(216, 1, b"70000")), Err(HandlerError::InvalidData(216)));
    assert_eq!(parse_relay_function(&message(216, 1, &[0xff, 0x32])), Err(HandlerError::InvalidData(216)));
}

#[test]
fn parse_device_number_accepts_only_device_zero() {
    assert_eq!(parse_device_number(&message(214, 1, b"00")), Ok(0));
    assert_eq!(parse_device_number(&message(214, 1, b" 0\n")), Ok(0));
    assert_eq!(parse_device_number(&message(214, 1, b"01")), Err(HandlerError::InvalidData(214)));
    assert_eq!(parse_device_number(&message(214, 1, b"256")), Err(HandlerError::InvalidData(214)));
    assert_eq!(parse_device_number(&message(214, 1, b"")), Err(HandlerError::InvalidData(214)));
}

#[test]
fn io_device_status_request_reports_relays() {
    let mut state = DeviceState::new();
    state.set_tool_direction(ToolDirection::Ccw);
    state.set_tool_start_switch_active(true);
    let response = IoDeviceStatusRequestHandler::new()
        .handle(&message(214, 1, b"00"), &mut state)
        .unwrap();
    assert_eq!(response.mid, 215);
    let text = String::from_utf8(response.data).unwrap();
    assert!(text.starts_with("010002020102210000000000000000000000"));
    assert_eq!(text.len(), 72);
}

#[test]
fn relay_function_subscribe_accepts() {
    let mut state = DeviceState::new();
    let response = RelayFunctionSubscribeHandler.handle(&message(216, 1, b"020"), &mut state).unwrap();
    assert_eq!(response.mid, 5);
    assert_eq!(response.data, b"0216".to_vec());
    assert_eq!(
        RelayFunctionSubscribeHandler.handle(&message(216, 1, b"030"), &mut state).err(),
        Some(HandlerError::InvalidData(216))
    );
}

#[test]
fn acknowledgements_answer_with_empty_mid_5() {
    let mut state = DeviceState::new();
    let r = PsetSelectedAckHandler.handle(&message(16, 1, b""), &mut state).unwrap();
    assert_eq!((r.mid, r.revision, r.data.len()), (5, 1, 0));
    let r = RelayFunctionAckHandler.handle(&message(218, 3, b""), &mut state).unwrap();
    assert_eq!((r.mid, r.revision, r.data.len()), (5, 1, 0));
}

#[test]
fn set_time_accepts_protocol_timestamps() {
    let mut state = DeviceState::new();
    let response = SetTimeHandler::new()
        .handle(&message(82, 1, b" 2030-06-01:12:00:00 "), &mut state)
        .unwrap();
    assert_eq!(response.mid, 5);
    assert_eq!(response.data, b"0082".to_vec());
    assert!(state.controller_time_offset_seconds > 0);
}

#[test]
fn set_time_rejects_other_text() {
    let mut state = DeviceState::new();
    let cases: [&[u8]; 4] = [b"2030-06-01 12:00:00", b"2030-13-01:12:00:00", b"", &[0xff]];
    for data in cases {
        assert_eq!(
            SetTimeHandler::new().handle(&message(82, 1, data), &mut state).err(),
            Some(HandlerError::InvalidData(82))
        );
    }
    assert_eq!(state.controller_time_offset_seconds, 0);
}

#[test]
fn test_unsupported_revision_for_tightening_result_subscription() {
    let registry = create_default_registry();
    let mut state = DeviceState::new();
    let message = Message {
        length: 20,
        mid: 60,
        revision: 4,
        data: vec![],
    };
    let result = registry.handle_message(&message, &mut state);
    assert!(matches!(
        result,
        Err(HandlerError::RevisionUnsupported {
            mid: 60,
            revision: 4
        })
    ));
}

#[test]
fn test_unsupported_revision_for_multi_spindle_result_subscription() {
    let registry = create_default_registry();
    let mut state = DeviceState::new();
    let message = Message {
        length: 20,
        mid: 100,
        revision: 4,
        data: vec![],
    };
    let result = registry.handle_message(&message, &mut state);
    assert!(matches!(
        result,
        Err(HandlerError::RevisionUnsupported {
            mid: 100,
            revision: 4
        })
    ));
}

#[test]
fn test_unsupported_revision_for_select_job_family() {
    let registry = create_default_registry();
    let mut state = DeviceState::new();
    let message = Message {
        length: 20,
        mid: 38,
        revision: 3,
        data: vec![],
    };

    let result = registry.handle_message(&message, &mut state);
    assert!(matches!(
        result,
        Err(HandlerError::RevisionUnsupported {
            mid: 38,
            revision: 3
        })
    ));
}

#[test]
fn test_select_job_revision_1() {
    let registry = create_default_registry();
    let mut state = DeviceState::new();
    let message = Message {
        length: 22,
        mid: 38,
        revision: 1,
        data: b"07".to_vec(),
    };

    let response = registry
        .handle_message(&message, &mut state)
        .expect("Handler should succeed");
    assert_eq!(response.mid, 5, "Should respond with MID 0005");
    assert_eq!(state.current_job_id, Some(7));
}

#[test]
fn test_select_job_revision_2() {
    let registry = create_default_registry();
    let mut state = DeviceState::new();
    let message = Message {
        length: 24,
        mid: 38,
        revision: 2,
        data: b"0042".to_vec(),
    };

    let response = registry
        .handle_message(&message, &mut state)
        .expect("Handler should succeed");
    assert_eq!(response.mid, 5, "Should respond with MID 0005");
    assert_eq!(state.current_job_id, Some(42));
}

#[test]
fn test_select_job_rejects_invalid_payload() {
    let registry = create_default_registry();
    let mut state = DeviceState::new();
    let message = Message {
        length: 22,
        mid: 38,
        revision: 1,
        data: b"A7".to_vec(),
    };

    let result = registry.handle_message(&message, &mut state);
    assert!(matches!(result, Err(HandlerError::InvalidData(38))));
}

#[test]
fn test_unknown_mid() {
    let registry = create_default_registry();
    let mut state = DeviceState::new();
    let message = Message {
        length: 20,
        mid: 9998,
        revision: 1,
        data: vec![],
    };

    let result = registry.handle_message(&message, &mut state);
    assert!(result.is_err(), "Unknown MID should return error");
}

#[test]
fn refused_request_leaves_state_and_maps_to_mid_4() {
    let registry = create_default_registry();
    let mut state = DeviceState::new();
    let before = state.current_job_id;
    let error = registry.handle_message(&message(38, 1, b"x7"), &mut state).unwrap_err();
    assert_eq!(state.current_job_id, before);
    let reply = error.to_error_response(1);
    assert_eq!((reply.mid, reply.revision), (4, 1));
    assert_eq!(reply.data, b"003801".to_vec());
    let unknown = registry.handle_message(&message(9998, 2, b""), &mut state).unwrap_err();
    assert_eq!(unknown, HandlerError::UnknownMid(9998));
    assert_eq!(unknown.to_error_response(2).data, b"999879".to_vec());
    let revision = HandlerError::RevisionUnsupported { mid: 100, revision: 4 };
    assert_eq!(revision.to_error_response(4).data, b"010097".to_vec());
    assert_eq!(HandlerError::Processing("x".to_string()).to_error_response(1).data, b"000079".to_vec());
}

#[test]
fn registry_routes_registered_handlers() {
    let mut registry = HandlerRegistry::new();
    let mut state = DeviceState::new();
    assert_eq!(
        registry.handle_message(&message(214, 1, b"00"), &mut state).err(),
        Some(HandlerError::UnknownMid(214))
    );
    registry.register(214, RegisteredHandler::IoDeviceStatusRequest(IoDeviceStatusRequestHandler::new()));
    registry.register(38, RegisteredHandler::JobSelect(JobSelectHandler::new()));
    assert_eq!(registry.handle_message(&message(214, 1, b"00"), &mut state).unwrap().mid, 215);
    assert!(matches!(registry.handler(38), Some(RegisteredHandler::JobSelect(_))));
    assert!(registry.handler(39).is_none());
    let default_registry = HandlerRegistry::default();
    assert!(default_registry.handler(16).is_none());
    let standard = create_default_registry();
    assert!(matches!(standard.handler(16), Some(RegisteredHandler::PsetSelectedAck(_))));
    assert!(matches!(standard.handler(100), Some(RegisteredHandler::MultiSpindleResultSubscribe(_))));
}

fn handled(mid: u16, revision: u8, data: &[u8], state: &mut DeviceState) -> Result<open_protocol_device_simulator::protocol::Response, HandlerError> {
    let registry = create_default_registry();
    let message = Message { length: 20 + data.len() as u16, mid, revision, data: data.to_vec() };
    registry.handle_message(&message, state)
}

#[test]
fn test_communication_start() {
    let mut state = DeviceState::new();
    let response = handled(1, 1, b"", &mut state).expect("Handler should succeed");
    assert_eq!(response.mid, 2, "Should respond with MID 0002");
    assert_eq!(
        String::from_utf8(response.data).unwrap(),
        format!("010001020103{:<25}", "OpenProtocolSimulator")
    );
}

#[test]
fn test_communication_stop() {
    let mut state = DeviceState::new();
    let response = handled(3, 1, b"", &mut state).expect("Handler should succeed");
    assert_eq!(response.mid, 5, "Should respond with MID 0005 (command accepted)");
    assert_eq!(response.data, b"0003".to_vec());
}

#[test]
fn test_keep_alive() {
    let mut state = DeviceState::new();
    let response = handled(9999, 1, b"", &mut state).expect("Handler should succeed");
    assert_eq!(response.mid, 9999, "Should respond with MID 9999");
    assert!(response.data.is_empty());
}

#[test]
fn test_pset_selection() {
    let mut state = DeviceState::new();
    let response = handled(18, 1, b"005", &mut state).expect("Handler should succeed");
    assert_eq!(response.mid, 16, "Should respond with MID 0016 (pset selected)");
    assert_eq!(state.current_pset_id, Some(5));
    assert_eq!(handled(18, 1, b"05", &mut state).err(), Some(HandlerError::InvalidData(18)));
}

#[test]
fn test_batch_size() {
    let mut state = DeviceState::new();
    let response = handled(19, 1, b"0010010", &mut state).expect("Handler should succeed");
    assert_eq!(response.mid, 5, "Should respond with MID 0005 (command accepted)");
    assert_eq!(state.tightening_tracker.batch_size(), 10);
    assert_eq!(handled(19, 1, b"001x010", &mut state).err(), Some(HandlerError::InvalidData(19)));
    assert_eq!(handled(19, 1, b"00105", &mut state).unwrap().mid, 5);
    assert_eq!(state.tightening_tracker.batch_size(), 5);
}

#[test]
fn test_tool_disable() {
    let mut state = DeviceState::new();
    let response = handled(42, 1, b"", &mut state).expect("Handler should succeed");
    assert_eq!(response.mid, 5, "Should respond with MID 0005 (command accepted)");
    assert!(!state.tool_enabled);
}

#[test]
fn test_tool_enable() {
    let mut state = DeviceState::new();
    state.tool_enabled = false;
    let response = handled(43, 1, b"", &mut state).expect("Handler should succeed");
    assert_eq!(response.mid, 5, "Should respond with MID 0005 (command accepted)");
    assert!(state.tool_enabled);
}

#[test]
fn test_vehicle_id_download() {
    let mut state = DeviceState::new();
    let vin = "SSC044207                ";
    let response = handled(50, 1, vin.as_bytes(), &mut state).expect("Handler should succeed");
    assert_eq!(response.mid, 5, "Should respond with MID 0005 (command accepted)");
    assert_eq!(state.vehicle_id.as_ref().unwrap().trim(), "SSC044207");
}

#[test]
fn test_tightening_result_subscription() {
    let mut state = DeviceState::new();
    assert_eq!(handled(60, 1, b"", &mut state).expect("Handler should succeed").mid, 5);
    assert_eq!(handled(63, 1, b"", &mut state).expect("Handler should succeed").mid, 5);
}

#[test]
fn test_pset_subscription() {
    let mut state = DeviceState::new();
    assert_eq!(handled(14, 1, b"", &mut state).expect("Handler should succeed").mid, 5);
    assert_eq!(handled(17, 1, b"", &mut state).expect("Handler should succeed").mid, 5);
}

#[test]
fn test_vehicle_id_subscription() {
    let mut state = DeviceState::new();
    assert_eq!(handled(51, 1, b"", &mut state).expect("Handler should succeed").mid, 5);
    assert_eq!(handled(54, 1, b"", &mut state).expect("Handler should succeed").mid, 5);
}

#[test]
fn test_multi_spindle_status_subscription() {
    let mut state = DeviceState::new();
    assert_eq!(handled(90, 1, b"", &mut state).expect("Handler should succeed").mid, 5);
    assert_eq!(handled(92, 1, b"", &mut state).expect("Handler should succeed").mid, 5);
}

#[test]
fn test_multi_spindle_result_subscription() {
    let mut state = DeviceState::new();
    assert_eq!(handled(100, 1, b"", &mut state).expect("Handler should succeed").mid, 5);
    assert_eq!(handled(103, 1, b"", &mut state).expect("Handler should succeed").mid, 5);
}

#[test]
fn test_batch_lifecycle() {
    let mut state = DeviceState::new();
    handled(19, 1, b"0010003", &mut state).expect("Handler should succeed");
    assert_eq!(state.tightening_tracker.batch_size(), 3);
    assert_eq!(state.tightening_tracker.counter(), 0);
    assert!(!state.tightening_tracker.is_complete());
    for i in 1..=3 {
        state.tightening_tracker.add_tightening(true);
        if i < 3 {
            assert!(!state.tightening_tracker.is_complete());
        } else {
            assert!(state.tightening_tracker.is_complete());
        }
    }
}

#[test]
fn batch_reset_and_increment_are_accepted() {
    let mut state = DeviceState::new();
    handled(19, 1, b"0010003", &mut state).unwrap();
    assert_eq!(handled(128, 1, b"", &mut state).unwrap().data, b"0128".to_vec());
    assert_eq!(state.tightening_tracker.counter(), 1);
    assert_eq!(handled(20, 1, b"001", &mut state).unwrap().data, b"0020".to_vec());
    assert_eq!(state.tightening_tracker.counter(), 0);
}

#[test]
fn acknowledgement_mids_answer_with_empty_mid_5() {
    let mut state = DeviceState::new();
    for mid in [53, 62, 93, 102] {
        let r = handled(mid, 1, b"", &mut state).unwrap();
        assert_eq!((r.mid, r.data.len()), (5, 0));
    }
}

#[test]
fn default_registry_knows_the_implemented_mids() {
    let registry = create_default_registry();
    for mid in [1, 3, 14, 16, 17, 18, 19, 20, 38, 42, 43, 50, 51, 53, 54, 60, 62, 63, 82, 90, 92, 93, 100, 102, 103, 128, 214, 216, 218, 9999] {
        assert!(registry.handler(mid).is_some(), "MID {mid}");
    }
    for mid in [2, 4, 5, 10, 15, 61, 101, 9998] {
        assert!(registry.handler(mid).is_none(), "MID {mid}");
    }
}
